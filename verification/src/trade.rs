//! What the mirror offers to a trade: the start of a quote, and the account
//! list of the swap that carries it out.
use crate::mirror::{ready_lst, SPoolJup, SPoolJupView};
use crate::quote::{
    lemma_quote_conserves_value, lemma_step_keeps_wf, Quote, QuoteEvent, QuoteParams, QuoteSession,
    QuoteStep,
};
use crate::swap_ix::{
    args_at, index_of_mint, overflows, swap_accounts, swap_exact_in_ix_by_mint_full, AccountMeta,
    SrcDstLstSolValueCalcAccounts, SwapByMintsFreeArgs, SwapExactInAmounts,
};
use crate::types::{Error, LstData, LstState, Missing, Pubkey};
use vstd::prelude::*;

verus! {

/// A swap to carry out.
#[derive(Clone, Copy, Debug, PartialEq, Eq, Structural)]
pub struct SwapParams {
    pub in_amount: u64,
    pub out_amount: u64,
    pub source_mint: Pubkey,
    pub destination_mint: Pubkey,
    pub source_token_account: Pubkey,
    pub destination_token_account: Pubkey,
    pub token_transfer_authority: Pubkey,
}

/// The kind of swap that the host is told of.
#[derive(Clone, Copy, Debug, PartialEq, Eq, Structural)]
pub enum Swap {
    StakeDexStakeWrappedSol,
}

/// The accounts of a swap, for the host to build its own instruction.
#[derive(Clone, Debug, PartialEq, Eq)]
pub struct SwapAndAccountMetas {
    pub swap: Swap,
    pub account_metas: Vec<AccountMeta>,
}

/// The accounts of a swap that are resolved outside the mirror: the fixed
/// ones, those of the two calculators, and those of the pricing policy or the
/// reason why it gave none.
#[derive(Debug)]
pub struct SwapAccounts<'a> {
    pub fixed: &'a [AccountMeta],
    pub src_lst_calculator_accounts: &'a [AccountMeta],
    pub dst_lst_calculator_accounts: &'a [AccountMeta],
    pub pricing: Result<Vec<AccountMeta>, Error>,
}

/// An asset with its binding and the balance of its reserves.
pub open spec fn ready_with_reserves(v: SPoolJupView, mint: Pubkey) -> Result<
    (LstState, LstData),
    Error,
> {
    match ready_lst(v.lst_state_list, v.lst_data_list, mint) {
        Err(e) => Err(e),
        Ok((state, data)) => if data.reserves_balance is None {
            Err(Error::NotReady(Missing::ReservesBalance(mint)))
        } else {
            Ok((state, data))
        },
    }
}

/// The session that a quote starts with, or the first thing that is missing:
/// the pool state, the pricing policy, the input asset, the output asset.
pub open spec fn quote_begun(v: SPoolJupView, params: QuoteParams) -> Result<QuoteSession, Error> {
    match (
        v.pool_state,
        v.pricing_prog,
        ready_with_reserves(v, params.input_mint),
        ready_with_reserves(v, params.output_mint),
    ) {
        (None, _, _, _) => Err(Error::NotReady(Missing::PoolState)),
        (Some(_), None, _, _) => Err(Error::NotReady(Missing::PricingProg)),
        (Some(_), Some(_), Err(e), _) => Err(e),
        (Some(_), Some(_), Ok(_), Err(e)) => Err(e),
        (Some(ps), Some(_), Ok(input), Ok(output)) => Ok(
            QuoteSession::initial(params, ps, input, output),
        ),
    }
}

/// The six answers that a quote needs, in the order in which a session asks
/// for them.
#[derive(Clone, Copy, Debug, PartialEq, Eq, Structural)]
pub struct QuoteAnswers {
    /// The reference value of the input asset's reserves.
    pub input_reserves: QuoteEvent,
    /// The reference value of the output asset's reserves.
    pub output_reserves: QuoteEvent,
    /// The reference value of the amount to swap.
    pub input_value: QuoteEvent,
    /// The reference value that the pricing policy gives out.
    pub price: QuoteEvent,
    /// The output amount that this value buys.
    pub output_amount: QuoteEvent,
    /// The spread in units of the output asset.
    pub fee_amount: QuoteEvent,
}

/// A step taken from where an earlier step led; a session that has ended
/// stays as it ended.
pub open spec fn then_stepped(step: QuoteStep, event: QuoteEvent) -> QuoteStep {
    match step {
        QuoteStep::Next(s) => s.stepped(event),
        _ => step,
    }
}

/// Where a session stands after the six answers.
pub open spec fn session_run(session: QuoteSession, answers: QuoteAnswers) -> QuoteStep {
    then_stepped(
        then_stepped(
            then_stepped(
                then_stepped(
                    then_stepped(session.stepped(answers.input_reserves), answers.output_reserves),
                    answers.input_value,
                ),
                answers.price,
            ),
            answers.output_amount,
        ),
        answers.fee_amount,
    )
}

/// The quote that the mirror gives on the six answers, or why it gives none.
pub open spec fn quote_result(v: SPoolJupView, params: QuoteParams, answers: QuoteAnswers) -> Result<
    Quote,
    Error,
> {
    match quote_begun(v, params) {
        Err(e) => Err(e),
        Ok(session) => match session_run(session, answers) {
            QuoteStep::Done(q) => Ok(q),
            QuoteStep::Failed(e) => Err(e),
            QuoteStep::Next(_) => Err(Error::NotReady(Missing::Answer)),
        },
    }
}

/// Value conservation: whatever the mirror, the request and the answers, a
/// quote is given only where the pricing policy's output value is at most the
/// value of the input, and the fee rate of every quote lies between zero and
/// one.
pub proof fn lemma_quotes_conserve_value(
    v: SPoolJupView,
    params: QuoteParams,
    answers: QuoteAnswers,
)
    requires
        quote_result(v, params, answers) is Ok,
    ensures
        answers.input_value is Valued,
        answers.price is Priced,
        answers.price->Priced_0 <= answers.input_value->Valued_0.min,
        quote_result(v, params, answers)->Ok_0.fee_pct.in_unit_range(),
{
    let s0 = quote_begun(v, params)->Ok_0;
    assert(s0.wf());
    let s1 = s0.stepped(answers.input_reserves);
    let s2 = then_stepped(s1, answers.output_reserves);
    let s3 = then_stepped(s2, answers.input_value);
    let s4 = then_stepped(s3, answers.price);
    let s5 = then_stepped(s4, answers.output_amount);
    lemma_step_keeps_wf(s0, answers.input_reserves);
    lemma_step_keeps_wf(s1->Next_0, answers.output_reserves);
    lemma_step_keeps_wf(s2->Next_0, answers.input_value);
    lemma_step_keeps_wf(s3->Next_0, answers.price);
    lemma_step_keeps_wf(s4->Next_0, answers.output_amount);
    lemma_quote_conserves_value(s5->Next_0, answers.fee_amount);
}

/// An input that its calculator values at zero is never quoted: once both
/// reserves have been valued, the request fails with `ZeroValue`.
pub proof fn lemma_zero_input_value_is_refused(
    v: SPoolJupView,
    params: QuoteParams,
    answers: QuoteAnswers,
)
    requires
        quote_begun(v, params) is Ok,
        then_stepped(
            quote_begun(v, params)->Ok_0.stepped(answers.input_reserves),
            answers.output_reserves,
        ) is Next,
        answers.input_value is Valued,
        answers.input_value->Valued_0.min == 0,
    ensures
        quote_result(v, params, answers) == Err::<Quote, Error>(Error::ZeroValue),
{
}

/// A price above the input's value is never quoted: once the input has been
/// valued, the request fails with `ValueLoss`.
pub proof fn lemma_value_loss_is_refused(
    v: SPoolJupView,
    params: QuoteParams,
    answers: QuoteAnswers,
)
    requires
        quote_begun(v, params) is Ok,
        then_stepped(
            then_stepped(
                quote_begun(v, params)->Ok_0.stepped(answers.input_reserves),
                answers.output_reserves,
            ),
            answers.input_value,
        ) is Next,
        answers.input_value is Valued,
        answers.price is Priced,
        answers.price->Priced_0 > answers.input_value->Valued_0.min,
    ensures
        quote_result(v, params, answers) == Err::<Quote, Error>(Error::ValueLoss),
{
}

/// Takes a step from where an earlier step led.
fn advance(step: QuoteStep, event: QuoteEvent) -> (r: QuoteStep)
    ensures
        r == then_stepped(step, event),
        (step matches QuoteStep::Next(s) && s.wf()) ==> (r matches QuoteStep::Next(n) ==> n.wf()),
{
    match step {
        QuoteStep::Next(s) => s.step(event),
        QuoteStep::Done(q) => QuoteStep::Done(q),
        QuoteStep::Failed(e) => QuoteStep::Failed(e),
    }
}

/// The account list of a swap, or the first thing that stands against it: an
/// asset that is not ready, a pricing policy that is not bound or gave no
/// accounts, a pool state that is not there, an index or a count beyond 32
/// bits.
pub open spec fn swap_metas(v: SPoolJupView, params: SwapParams, accounts: SwapAccounts) -> Result<
    Seq<AccountMeta>,
    Error,
> {
    match (
        ready_lst(v.lst_state_list, v.lst_data_list, params.source_mint),
        ready_lst(v.lst_state_list, v.lst_data_list, params.destination_mint),
    ) {
        (Err(e), _) => Err(e),
        (Ok(_), Err(e)) => Err(e),
        (Ok(_), Ok(_)) => match (v.pricing_prog, accounts.pricing, v.pool_state) {
            (None, _, _) => Err(Error::NotReady(Missing::PricingProg)),
            (Some(_), Err(e), _) => Err(e),
            (Some(_), Ok(_), None) => Err(Error::NotReady(Missing::PoolState)),
            (Some(_), Ok(pricing), Some(ps)) => {
                let src = index_of_mint(v.lst_state_list, params.source_mint, 0);
                let dst = index_of_mint(v.lst_state_list, params.destination_mint, 0);
                if overflows(
                    args_at(
                        src->Some_0,
                        dst->Some_0,
                        SwapExactInAmounts {
                            min_amount_out: params.out_amount,
                            amount: params.in_amount,
                        },
                    ),
                    accounts.src_lst_calculator_accounts@,
                    accounts.dst_lst_calculator_accounts@,
                ) {
                    Err(Error::Overflow)
                } else {
                    Ok(
                        swap_accounts(
                            accounts.fixed@,
                            accounts.src_lst_calculator_accounts@,
                            accounts.dst_lst_calculator_accounts@,
                            pricing@,
                            ps.pricing_program,
                        ),
                    )
                }
            },
        },
    }
}

impl SPoolJup {
    /// An asset with its binding, once the balance of its reserves is known.
    fn find_with_reserves(&self, mint: Pubkey) -> (r: Result<(LstState, LstData), Error>)
        ensures
            r == ready_with_reserves(self@, mint),
    {
        match self.find_ready_lst(mint) {
            Err(e) => Err(e),
            Ok((state, data)) => if data.reserves_balance.is_none() {
                Err(Error::NotReady(Missing::ReservesBalance(mint)))
            } else {
                Ok((state, data))
            },
        }
    }

    /// Starts a quote for an exact input amount.
    ///
    /// The session is returned where the pool state, the pricing policy and
    /// both assets with their reserve balances are there; it then asks for
    /// the conversions and the price one by one.
    pub fn quote_swap_exact_in(&self, params: &QuoteParams) -> (r: Result<QuoteSession, Error>)
        ensures
            r == quote_begun(self@, *params),
            r matches Ok(s) ==> s.wf(),
    {
        let pool_state = match self.pool_state() {
            Ok(ps) => *ps,
            Err(e) => {
                return Err(e);
            },
        };
        if let Err(e) = self.pricing_prog() {
            return Err(e);
        }
        let input = match self.find_with_reserves(params.input_mint) {
            Ok(found) => found,
            Err(e) => {
                return Err(e);
            },
        };
        let output = match self.find_with_reserves(params.output_mint) {
            Ok(found) => found,
            Err(e) => {
                return Err(e);
            },
        };
        Ok(QuoteSession::begin(params, pool_state, input, output))
    }

    /// Quotes an exact input amount on six answers given beforehand.
    ///
    /// Whatever the answers are, a quote is given only where the price is at
    /// most the input's value and that value is not zero; its output amount is
    /// not zero, it echoes the input amount, its fee is charged in the output
    /// asset, and its fee rate lies between zero and one.
    pub fn quote_with_answers(&self, params: &QuoteParams, answers: &QuoteAnswers) -> (r: Result<
        Quote,
        Error,
    >)
        ensures
            r == quote_result(self@, *params, *answers),
            r matches Ok(q) ==> answers.input_value is Valued && answers.price is Priced
                && 0 < answers.input_value->Valued_0.min && answers.price->Priced_0
                <= answers.input_value->Valued_0.min && q.fee_pct.in_unit_range() && q.out_amount
                > 0 && q.in_amount == params.amount && q.fee_mint == params.output_mint,
    {
        let session = match self.quote_swap_exact_in(params) {
            Ok(s) => s,
            Err(e) => {
                return Err(e);
            },
        };
        let s1 = session.step(answers.input_reserves);
        let s2 = advance(s1, answers.output_reserves);
        let s3 = advance(s2, answers.input_value);
        let s4 = advance(s3, answers.price);
        let s5 = advance(s4, answers.output_amount);
        let s6 = advance(s5, answers.fee_amount);
        match s6 {
            QuoteStep::Done(q) => Ok(q),
            QuoteStep::Failed(e) => Err(e),
            QuoteStep::Next(_) => Err(Error::NotReady(Missing::Answer)),
        }
    }

    /// Lists the accounts of an exact-input swap between two bound assets.
    pub fn swap_exact_in(&self, params: &SwapParams, accounts: &SwapAccounts) -> (r: Result<
        SwapAndAccountMetas,
        Error,
    >)
        ensures
            match swap_metas(self@, *params, *accounts) {
                Err(e) => r == Err::<SwapAndAccountMetas, Error>(e),
                Ok(metas) => r is Ok && r->Ok_0.swap == Swap::StakeDexStakeWrappedSol
                    && r->Ok_0.account_metas@ == metas,
            },
    {
        if let Err(e) = self.find_ready_lst(params.source_mint) {
            return Err(e);
        }
        if let Err(e) = self.find_ready_lst(params.destination_mint) {
            return Err(e);
        }
        if let Err(e) = self.pricing_prog() {
            return Err(e);
        }
        let pricing = match &accounts.pricing {
            Ok(p) => p,
            Err(e) => {
                return Err(*e);
            },
        };
        let pricing_program = match self.pool_state() {
            Ok(ps) => ps.pricing_program,
            Err(e) => {
                return Err(e);
            },
        };
        match swap_exact_in_ix_by_mint_full(
            SwapByMintsFreeArgs {
                program_id: self.program_id,
                accounts: accounts.fixed,
                src_lst_mint: params.source_mint,
                dst_lst_mint: params.destination_mint,
                lst_state_list: self.lst_state_list_account.as_slice(),
            },
            SwapExactInAmounts { min_amount_out: params.out_amount, amount: params.in_amount },
            SrcDstLstSolValueCalcAccounts {
                src_lst_calculator_accounts: accounts.src_lst_calculator_accounts,
                dst_lst_calculator_accounts: accounts.dst_lst_calculator_accounts,
            },
            pricing.as_slice(),
            pricing_program,
        ) {
            Ok(ix) => Ok(
                SwapAndAccountMetas {
                    swap: Swap::StakeDexStakeWrappedSol,
                    account_metas: ix.accounts,
                },
            ),
            Err(e) => Err(e),
        }
    }
}

} // verus!
