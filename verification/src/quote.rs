//! The quote engine.
//!
//! A quote needs six answers from outside the mirror: five conversions by the
//! two value calculators and one price. The engine is a session that says
//! which answer it needs next and, given that answer, either moves on, fails,
//! or ends with the quote. Whoever holds the calculators runs the session.
use crate::fees::{
    calc_quote_fees, calc_swap_protocol_fees, protocol_fee, quote_fee_pct,
    CalcSwapProtocolFeesArgs, FeePct,
};
use crate::types::{
    Error, LstData, LstState, Missing, PoolState, Pubkey, SolValCalc, U64ValueRange,
};
use vstd::prelude::*;

verus! {

/// Which amount of a swap is fixed.
#[derive(Clone, Copy, Debug, PartialEq, Eq, Structural)]
pub enum SwapMode {
    ExactIn,
    ExactOut,
}

/// A request for a quote.
#[derive(Clone, Copy, Debug, PartialEq, Eq, Structural)]
pub struct QuoteParams {
    pub amount: u64,
    pub input_mint: Pubkey,
    pub output_mint: Pubkey,
    pub swap_mode: SwapMode,
}

/// A quote. The fee is charged in the output asset.
#[derive(Clone, Copy, Debug, PartialEq, Eq)]
pub struct Quote {
    pub not_enough_liquidity: bool,
    pub min_in_amount: Option<u64>,
    pub min_out_amount: Option<u64>,
    pub in_amount: u64,
    pub out_amount: u64,
    pub fee_mint: Pubkey,
    pub fee_amount: u64,
    pub fee_pct: FeePct,
}

/// How far a session has come: each stage is named after the answer it waits
/// for.
#[derive(Clone, Copy, Debug, PartialEq, Eq, Structural)]
pub enum QuoteStage {
    /// The reference value of the input asset's reserves.
    SyncInput,
    /// The reference value of the output asset's reserves.
    SyncOutput,
    /// The reference value of the amount to swap.
    ValueInput,
    /// The reference value that the pricing policy gives out for it.
    Price,
    /// The output amount that this value buys.
    ValueOutput,
    /// The spread between the two values, in units of the output asset.
    ValueFee,
}

/// What a session asks for.
#[derive(Clone, Copy, Debug, PartialEq, Eq, Structural)]
pub enum QuoteAction {
    /// Convert an amount of the calculator's asset to reference units.
    LstToSol { calc: SolValCalc, amount: u64 },
    /// Convert reference units to an amount of the calculator's asset.
    SolToLst { calc: SolValCalc, sol_value: u64 },
    /// Price an input of the given amount and reference value.
    PriceExactIn { input_lst_mint: Pubkey, output_lst_mint: Pubkey, amount: u64, sol_value: u64 },
}

/// The answer to a session's request.
#[derive(Clone, Copy, Debug, PartialEq, Eq, Structural)]
pub enum QuoteEvent {
    /// A calculator's conversion.
    Valued(U64ValueRange),
    /// The pricing policy's output value.
    Priced(u64),
    /// The calculator or the policy failed.
    Failed(Error),
}

/// A quote under way.
#[derive(Clone, Copy, Debug, PartialEq, Eq)]
pub struct QuoteSession {
    pub stage: QuoteStage,
    pub amount: u64,
    pub input_mint: Pubkey,
    pub output_mint: Pubkey,
    pub pool_state: PoolState,
    pub input_lst_state: LstState,
    pub input_lst_data: LstData,
    pub output_lst_state: LstState,
    pub output_lst_data: LstData,
    pub in_sol_value: u64,
    pub out_sol_value: u64,
    pub dst_lst_out: u64,
    pub not_enough_liquidity: bool,
    pub fee_pct: FeePct,
}

/// Where a step leads.
#[derive(Clone, Copy, Debug, PartialEq, Eq)]
pub enum QuoteStep {
    Next(QuoteSession),
    Done(Quote),
    Failed(Error),
}

/// The pool's and the asset's accounts after the asset's reference value has
/// been brought up to `returned`.
pub open spec fn synced(pool_state: PoolState, lst_state: LstState, returned: u64) -> Result<
    (PoolState, LstState),
    Error,
> {
    if pool_state.total_sol_value < lst_state.sol_value || pool_state.total_sol_value
        - lst_state.sol_value + returned > u64::MAX {
        Err(Error::Overflow)
    } else {
        Ok(
            (
                PoolState {
                    total_sol_value: (pool_state.total_sol_value - lst_state.sol_value
                        + returned) as u64,
                    ..pool_state
                },
                LstState { sol_value: returned, ..lst_state },
            ),
        )
    }
}

/// Replaces an asset's recorded reference value and adjusts the pool's total
/// by the difference.
pub fn sync_sol_value_with_retval(pool_state: PoolState, lst_state: LstState, returned: u64) -> (r:
    Result<(PoolState, LstState), Error>)
    ensures
        r == synced(pool_state, lst_state, returned),
{
    if pool_state.total_sol_value < lst_state.sol_value {
        return Err(Error::Overflow);
    }
    let rest: u64 = pool_state.total_sol_value - lst_state.sol_value;
    if returned > u64::MAX - rest {
        return Err(Error::Overflow);
    }
    let mut pool_after = pool_state;
    pool_after.total_sol_value = rest + returned;
    let mut lst_after = lst_state;
    lst_after.sol_value = returned;
    Ok((pool_after, lst_after))
}

/// The sync of one asset, given what its calculator made of its reserves.
pub open spec fn sync_applied(
    pool_state: PoolState,
    lst_state: LstState,
    lst_data: LstData,
    valued: U64ValueRange,
) -> Result<(PoolState, LstState, u64), Error> {
    match lst_data.reserves_balance {
        None => Err(Error::NotReady(Missing::ReservesBalance(lst_state.mint))),
        Some(balance) => match synced(pool_state, lst_state, valued.min) {
            Err(e) => Err(e),
            Ok((p, l)) => Ok((p, l, balance)),
        },
    }
}

/// Syncs one asset to the lower bound of the value of its reserves, and hands
/// the reserve balance back. Nothing is written to the mirror.
pub fn apply_sync_sol_value(
    pool_state: PoolState,
    lst_state: LstState,
    lst_data: &LstData,
    valued: U64ValueRange,
) -> (r: Result<(PoolState, LstState, u64), Error>)
    ensures
        r == sync_applied(pool_state, lst_state, *lst_data, valued),
{
    let balance = match lst_data.reserves_balance {
        Some(b) => b,
        None => {
            return Err(Error::NotReady(Missing::ReservesBalance(lst_state.mint)));
        },
    };
    match sync_sol_value_with_retval(pool_state, lst_state, valued.get_min()) {
        Ok((p, l)) => Ok((p, l, balance)),
        Err(e) => Err(e),
    }
}

impl QuoteSession {
    /// A session that has just begun.
    pub open spec fn initial(
        params: QuoteParams,
        pool_state: PoolState,
        input: (LstState, LstData),
        output: (LstState, LstData),
    ) -> QuoteSession {
        QuoteSession {
            stage: QuoteStage::SyncInput,
            amount: params.amount,
            input_mint: params.input_mint,
            output_mint: params.output_mint,
            pool_state,
            input_lst_state: input.0,
            input_lst_data: input.1,
            output_lst_state: output.0,
            output_lst_data: output.1,
            in_sol_value: 0,
            out_sol_value: 0,
            dst_lst_out: 0,
            not_enough_liquidity: false,
            fee_pct: FeePct { mantissa: 0, scale: 0 },
        }
    }

    /// What holds of every session that began with both reserve balances
    /// known and went on by steps.
    pub open spec fn wf(self) -> bool {
        &&& self.input_lst_data.reserves_balance is Some
        &&& self.output_lst_data.reserves_balance is Some
        &&& (self.stage == QuoteStage::Price || self.stage == QuoteStage::ValueOutput || self.stage
            == QuoteStage::ValueFee) ==> self.in_sol_value > 0
        &&& (self.stage == QuoteStage::ValueOutput || self.stage == QuoteStage::ValueFee)
            ==> self.out_sol_value <= self.in_sol_value
        &&& self.stage == QuoteStage::ValueFee ==> self.dst_lst_out > 0
            && self.fee_pct.in_unit_range()
    }

    /// Begins a session for a pair of assets that are both bound.
    pub fn begin(
        params: &QuoteParams,
        pool_state: PoolState,
        input: (LstState, LstData),
        output: (LstState, LstData),
    ) -> (r: QuoteSession)
        ensures
            r == Self::initial(*params, pool_state, input, output),
    {
        QuoteSession {
            stage: QuoteStage::SyncInput,
            amount: params.amount,
            input_mint: params.input_mint,
            output_mint: params.output_mint,
            pool_state,
            input_lst_state: input.0,
            input_lst_data: input.1,
            output_lst_state: output.0,
            output_lst_data: output.1,
            in_sol_value: 0,
            out_sol_value: 0,
            dst_lst_out: 0,
            not_enough_liquidity: false,
            fee_pct: FeePct { mantissa: 0, scale: 0 },
        }
    }

    /// The request of the current stage.
    pub open spec fn next_action(self) -> QuoteAction {
        match self.stage {
            QuoteStage::SyncInput => QuoteAction::LstToSol {
                calc: self.input_lst_data.sol_val_calc,
                amount: match self.input_lst_data.reserves_balance {
                    Some(b) => b,
                    None => 0,
                },
            },
            QuoteStage::SyncOutput => QuoteAction::LstToSol {
                calc: self.output_lst_data.sol_val_calc,
                amount: match self.output_lst_data.reserves_balance {
                    Some(b) => b,
                    None => 0,
                },
            },
            QuoteStage::ValueInput => QuoteAction::LstToSol {
                calc: self.input_lst_data.sol_val_calc,
                amount: self.amount,
            },
            QuoteStage::Price => QuoteAction::PriceExactIn {
                input_lst_mint: self.input_mint,
                output_lst_mint: self.output_mint,
                amount: self.amount,
                sol_value: self.in_sol_value,
            },
            QuoteStage::ValueOutput => QuoteAction::SolToLst {
                calc: self.output_lst_data.sol_val_calc,
                sol_value: self.out_sol_value,
            },
            QuoteStage::ValueFee => QuoteAction::SolToLst {
                calc: self.output_lst_data.sol_val_calc,
                sol_value: if self.out_sol_value <= self.in_sol_value {
                    (self.in_sol_value - self.out_sol_value) as u64
                } else {
                    0
                },
            },
        }
    }

    /// Says what the session needs next.
    pub fn action(&self) -> (r: QuoteAction)
        ensures
            r == self.next_action(),
    {
        match self.stage {
            QuoteStage::SyncInput => QuoteAction::LstToSol {
                calc: self.input_lst_data.sol_val_calc,
                amount: match self.input_lst_data.reserves_balance {
                    Some(b) => b,
                    None => 0,
                },
            },
            QuoteStage::SyncOutput => QuoteAction::LstToSol {
                calc: self.output_lst_data.sol_val_calc,
                amount: match self.output_lst_data.reserves_balance {
                    Some(b) => b,
                    None => 0,
                },
            },
            QuoteStage::ValueInput => QuoteAction::LstToSol {
                calc: self.input_lst_data.sol_val_calc,
                amount: self.amount,
            },
            QuoteStage::Price => QuoteAction::PriceExactIn {
                input_lst_mint: self.input_mint,
                output_lst_mint: self.output_mint,
                amount: self.amount,
                sol_value: self.in_sol_value,
            },
            QuoteStage::ValueOutput => QuoteAction::SolToLst {
                calc: self.output_lst_data.sol_val_calc,
                sol_value: self.out_sol_value,
            },
            QuoteStage::ValueFee => QuoteAction::SolToLst {
                calc: self.output_lst_data.sol_val_calc,
                sol_value: if self.out_sol_value <= self.in_sol_value {
                    self.in_sol_value - self.out_sol_value
                } else {
                    0
                },
            },
        }
    }

    /// The step on the value of the input asset's reserves.
    pub open spec fn after_sync_input(self, valued: U64ValueRange) -> QuoteStep {
        match sync_applied(self.pool_state, self.input_lst_state, self.input_lst_data, valued) {
            Err(e) => QuoteStep::Failed(e),
            Ok((p, l, _)) => QuoteStep::Next(
                QuoteSession {
                    stage: QuoteStage::SyncOutput,
                    pool_state: p,
                    input_lst_state: l,
                    ..self
                },
            ),
        }
    }

    /// The step on the value of the output asset's reserves.
    pub open spec fn after_sync_output(self, valued: U64ValueRange) -> QuoteStep {
        match sync_applied(self.pool_state, self.output_lst_state, self.output_lst_data, valued) {
            Err(e) => QuoteStep::Failed(e),
            Ok((p, l, _)) => QuoteStep::Next(
                QuoteSession {
                    stage: QuoteStage::ValueInput,
                    pool_state: p,
                    output_lst_state: l,
                    ..self
                },
            ),
        }
    }

    /// The step on the value of the amount to swap: a value of zero ends the
    /// session.
    pub open spec fn after_value_input(self, valued: U64ValueRange) -> QuoteStep {
        if valued.min == 0 {
            QuoteStep::Failed(Error::ZeroValue)
        } else {
            QuoteStep::Next(
                QuoteSession { stage: QuoteStage::Price, in_sol_value: valued.min, ..self },
            )
        }
    }

    /// The step on the price: an output worth more than the input ends the
    /// session.
    pub open spec fn after_price(self, out_sol_value: u64) -> QuoteStep {
        if out_sol_value > self.in_sol_value {
            QuoteStep::Failed(Error::ValueLoss)
        } else {
            QuoteStep::Next(QuoteSession { stage: QuoteStage::ValueOutput, out_sol_value, ..self })
        }
    }

    /// The step on the output amount: zero ends the session; otherwise the
    /// protocol fee is added and the sum held against the reserves, and the
    /// fee rate is computed.
    pub open spec fn after_value_output(self, valued: U64ValueRange) -> QuoteStep {
        if valued.min == 0 {
            QuoteStep::Failed(Error::ZeroValue)
        } else {
            match protocol_fee(
                CalcSwapProtocolFeesArgs {
                    in_sol_value: self.in_sol_value,
                    out_sol_value: self.out_sol_value,
                    dst_lst_out: valued.min,
                    trading_protocol_fee_bps: self.pool_state.trading_protocol_fee_bps,
                },
            ) {
                Err(e) => QuoteStep::Failed(e),
                Ok(fee) => if valued.min + fee > u64::MAX {
                    QuoteStep::Failed(Error::Overflow)
                } else {
                    match (
                        self.output_lst_data.reserves_balance,
                        quote_fee_pct(self.in_sol_value, self.out_sol_value),
                    ) {
                        (None, _) => QuoteStep::Failed(Error::NotReady(
                            Missing::ReservesBalance(self.output_lst_state.mint),
                        )),
                        (Some(_), Err(e)) => QuoteStep::Failed(e),
                        (Some(balance), Ok(pct)) => QuoteStep::Next(
                            QuoteSession {
                                stage: QuoteStage::ValueFee,
                                dst_lst_out: valued.min,
                                not_enough_liquidity: valued.min + fee > balance,
                                fee_pct: pct,
                                ..self
                            },
                        ),
                    }
                },
            }
        }
    }

    /// The last step, on the fee in units of the output asset.
    pub open spec fn after_value_fee(self, valued: U64ValueRange) -> QuoteStep {
        QuoteStep::Done(
            Quote {
                not_enough_liquidity: self.not_enough_liquidity,
                min_in_amount: None,
                min_out_amount: None,
                in_amount: self.amount,
                out_amount: self.dst_lst_out,
                fee_mint: self.output_mint,
                fee_amount: valued.min,
                fee_pct: self.fee_pct,
            },
        )
    }

    /// Where the session goes on an answer. A failure of the calculator or of
    /// the policy ends it with that failure, and so does an answer of the
    /// wrong kind, with `NotReady`.
    pub open spec fn stepped(self, event: QuoteEvent) -> QuoteStep {
        match (self.stage, event) {
            (_, QuoteEvent::Failed(e)) => QuoteStep::Failed(e),
            (QuoteStage::SyncInput, QuoteEvent::Valued(v)) => self.after_sync_input(v),
            (QuoteStage::SyncOutput, QuoteEvent::Valued(v)) => self.after_sync_output(v),
            (QuoteStage::ValueInput, QuoteEvent::Valued(v)) => self.after_value_input(v),
            (QuoteStage::Price, QuoteEvent::Priced(v)) => self.after_price(v),
            (QuoteStage::ValueOutput, QuoteEvent::Valued(v)) => self.after_value_output(v),
            (QuoteStage::ValueFee, QuoteEvent::Valued(v)) => self.after_value_fee(v),
            _ => QuoteStep::Failed(Error::NotReady(Missing::Answer)),
        }
    }

    /// Takes the answer to the current request.
    ///
    /// A session that goes on stays well formed; a value of zero for the
    /// input, or an output amount of zero, ends it with `ZeroValue`; a price
    /// above the input's value ends it with `ValueLoss`; and a quote is given
    /// only where the output's value is at most the input's and the fee rate
    /// lies between zero and one.
    pub fn step(self, event: QuoteEvent) -> (r: QuoteStep)
        ensures
            r == self.stepped(event),
            self.wf() ==> (r matches QuoteStep::Next(s) ==> s.wf()),
            self.wf() ==> (r matches QuoteStep::Done(q) ==> self.out_sol_value <= self.in_sol_value
                && q.fee_pct.in_unit_range() && q.out_amount > 0 && q.in_amount == self.amount),
            (self.stage == QuoteStage::ValueInput && event is Valued && event->Valued_0.min == 0)
                ==> r == QuoteStep::Failed(Error::ZeroValue),
            (self.stage == QuoteStage::Price && event is Priced && event->Priced_0
                > self.in_sol_value) ==> r == QuoteStep::Failed(Error::ValueLoss),
    {
        let valued = match event {
            QuoteEvent::Failed(e) => {
                return QuoteStep::Failed(e);
            },
            QuoteEvent::Priced(out_sol_value) => {
                return match self.stage {
                    QuoteStage::Price => {
                        if out_sol_value > self.in_sol_value {
                            QuoteStep::Failed(Error::ValueLoss)
                        } else {
                            let mut s = self;
                            s.stage = QuoteStage::ValueOutput;
                            s.out_sol_value = out_sol_value;
                            QuoteStep::Next(s)
                        }
                    },
                    _ => QuoteStep::Failed(Error::NotReady(Missing::Answer)),
                };
            },
            QuoteEvent::Valued(v) => v,
        };
        match self.stage {
            QuoteStage::SyncInput => {
                match apply_sync_sol_value(
                    self.pool_state,
                    self.input_lst_state,
                    &self.input_lst_data,
                    valued,
                ) {
                    Err(e) => QuoteStep::Failed(e),
                    Ok((p, l, _)) => {
                        let mut s = self;
                        s.stage = QuoteStage::SyncOutput;
                        s.pool_state = p;
                        s.input_lst_state = l;
                        QuoteStep::Next(s)
                    },
                }
            },
            QuoteStage::SyncOutput => {
                match apply_sync_sol_value(
                    self.pool_state,
                    self.output_lst_state,
                    &self.output_lst_data,
                    valued,
                ) {
                    Err(e) => QuoteStep::Failed(e),
                    Ok((p, l, _)) => {
                        let mut s = self;
                        s.stage = QuoteStage::ValueInput;
                        s.pool_state = p;
                        s.output_lst_state = l;
                        QuoteStep::Next(s)
                    },
                }
            },
            QuoteStage::ValueInput => {
                let in_sol_value = valued.get_min();
                if in_sol_value == 0 {
                    QuoteStep::Failed(Error::ZeroValue)
                } else {
                    let mut s = self;
                    s.stage = QuoteStage::Price;
                    s.in_sol_value = in_sol_value;
                    QuoteStep::Next(s)
                }
            },
            QuoteStage::Price => QuoteStep::Failed(Error::NotReady(Missing::Answer)),
            QuoteStage::ValueOutput => self.step_value_output(valued),
            QuoteStage::ValueFee => QuoteStep::Done(
                Quote {
                    not_enough_liquidity: self.not_enough_liquidity,
                    min_in_amount: None,
                    min_out_amount: None,
                    in_amount: self.amount,
                    out_amount: self.dst_lst_out,
                    fee_mint: self.output_mint,
                    fee_amount: valued.get_min(),
                    fee_pct: self.fee_pct,
                },
            ),
        }
    }

    /// The step on the output amount.
    fn step_value_output(self, valued: U64ValueRange) -> (r: QuoteStep)
        ensures
            r == self.after_value_output(valued),
            r matches QuoteStep::Next(s) ==> s.dst_lst_out > 0 && s.fee_pct.in_unit_range()
                && s.stage == QuoteStage::ValueFee,
    {
        let dst_lst_out = valued.get_min();
        if dst_lst_out == 0 {
            return QuoteStep::Failed(Error::ZeroValue);
        }
        let fee = match calc_swap_protocol_fees(
            CalcSwapProtocolFeesArgs {
                in_sol_value: self.in_sol_value,
                out_sol_value: self.out_sol_value,
                dst_lst_out,
                trading_protocol_fee_bps: self.pool_state.trading_protocol_fee_bps,
            },
        ) {
            Ok(f) => f,
            Err(e) => {
                return QuoteStep::Failed(e);
            },
        };
        if fee > u64::MAX - dst_lst_out {
            return QuoteStep::Failed(Error::Overflow);
        }
        let total_dst_lst_out: u64 = dst_lst_out + fee;
        let balance = match self.output_lst_data.reserves_balance {
            Some(b) => b,
            None => {
                return QuoteStep::Failed(Error::NotReady(
                    Missing::ReservesBalance(self.output_lst_state.mint),
                ));
            },
        };
        let pct = match calc_quote_fees(self.in_sol_value, self.out_sol_value) {
            Ok((_, pct)) => pct,
            Err(e) => {
                return QuoteStep::Failed(e);
            },
        };
        let mut s = self;
        s.stage = QuoteStage::ValueFee;
        s.dst_lst_out = dst_lst_out;
        s.not_enough_liquidity = total_dst_lst_out > balance;
        s.fee_pct = pct;
        QuoteStep::Next(s)
    }
}

/// Value conservation: a well-formed session ends with a quote only where the
/// output's reference value is at most the input's, and the quote's fee rate
/// lies between zero and one.
pub proof fn lemma_quote_conserves_value(session: QuoteSession, event: QuoteEvent)
    requires
        session.wf(),
        session.stepped(event) is Done,
    ensures
        session.out_sol_value <= session.in_sol_value,
        session.stepped(event)->Done_0.fee_pct.in_unit_range(),
{
}

/// Every step of a well-formed session leads to a well-formed session.
pub proof fn lemma_step_keeps_wf(session: QuoteSession, event: QuoteEvent)
    requires
        session.wf(),
        session.stepped(event) is Next,
    ensures
        session.stepped(event)->Next_0.wf(),
{
    if session.stage == QuoteStage::ValueOutput && event is Valued {
        let pct = quote_fee_pct(session.in_sol_value, session.out_sol_value);
        assert(pct is Ok ==> pct->Ok_0.in_unit_range());
    }
}

/// A session whose input is valued at zero fails with `ZeroValue`, whatever
/// the upper bound of the value.
pub proof fn lemma_zero_input_value_fails(session: QuoteSession, valued: U64ValueRange)
    requires
        session.stage == QuoteStage::ValueInput,
        valued.min == 0,
    ensures
        session.stepped(QuoteEvent::Valued(valued)) == QuoteStep::Failed(Error::ZeroValue),
{
}

} // verus!
