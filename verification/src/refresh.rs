//! Refresh of the mirror from a batch of fetched accounts.
//!
//! Every part of the batch is applied, whether or not an earlier part failed;
//! the first failure is the one reported. The parts are taken in a fixed
//! order: the bindings, the pricing policy, the asset list, the pool state,
//! and last the LP token's supply.
use crate::mirror::{
    list_mints, mints_of, pricing_for, try_pricing_prog, SPoolJup, SPoolJupView,
};
use crate::reconcile::{aligned, reconciled};
use crate::types::{
    and_then_keep, append_copies, first_err, Error, Fetched, KnownPrograms, LstData, LstState,
    PoolState, Pubkey,
};
use vstd::prelude::*;

verus! {

/// What a batch holds for one bound asset: how its calculator took the batch,
/// and the balance of its reserves.
#[derive(Clone, Copy, Debug, PartialEq, Eq)]
pub struct LstRefresh {
    pub calculator: Result<(), Error>,
    pub reserves: Fetched<u64>,
}

/// A batch of fetched accounts, decoded.
#[derive(Debug)]
pub struct Refresh {
    /// Index by index beside the mirror's bindings.
    pub lsts: Vec<LstRefresh>,
    /// How the bound pricing policy took the batch.
    pub pricing: Result<(), Error>,
    pub lst_state_list: Fetched<Vec<LstState>>,
    pub pool_state: Fetched<PoolState>,
    /// How the pricing policy that the fetched pool state names took the
    /// batch; read only where that policy is bound by this batch.
    pub rebound_pricing: Result<(), Error>,
    /// The supply of the LP token that the pool state names after the batch.
    pub lp_mint_supply: Fetched<u64>,
}

/// The accounts that one asset needs refreshed.
#[derive(Clone, Debug)]
pub struct LstAccounts {
    pub calculator: Vec<Pubkey>,
    pub reserves: Option<Pubkey>,
}

/// A binding after its part of the batch: a fetched balance replaces the one
/// it held.
pub open spec fn refreshed_binding(binding: Option<LstData>, r: LstRefresh) -> Option<LstData> {
    match (binding, r.reserves) {
        (Some(ld), Fetched::Parsed(balance)) => Some(
            LstData { reserves_balance: Some(balance), ..ld },
        ),
        _ => binding,
    }
}

/// The outcome of one binding's part: the calculator's failure, else that of
/// the balance. An asset without a binding cannot fail.
pub open spec fn binding_outcome(binding: Option<LstData>, r: LstRefresh) -> Result<(), Error> {
    match binding {
        None => Ok(()),
        Some(_) => first_err(
            r.calculator,
            match r.reserves {
                Fetched::Failed(e) => Err(e),
                _ => Ok(()),
            },
        ),
    }
}

/// All bindings after the batch. Where the batch is shorter than the list,
/// the rest stays as it was.
pub open spec fn bindings_refreshed(
    bindings: Seq<Option<LstData>>,
    lsts: Seq<LstRefresh>,
) -> Seq<Option<LstData>> {
    Seq::new(
        bindings.len(),
        |i: int|
            if i < lsts.len() {
                refreshed_binding(bindings[i], lsts[i])
            } else {
                bindings[i]
            },
    )
}

/// The first failure among the first `n` bindings.
pub open spec fn bindings_outcome(
    bindings: Seq<Option<LstData>>,
    lsts: Seq<LstRefresh>,
    n: int,
) -> Result<(), Error>
    decreases n,
{
    if n <= 0 {
        Ok(())
    } else {
        first_err(
            bindings_outcome(bindings, lsts, n - 1),
            if n - 1 < bindings.len() && n - 1 < lsts.len() {
                binding_outcome(bindings[n - 1], lsts[n - 1])
            } else {
                Ok(())
            },
        )
    }
}

/// A batch changes balances only: bindings that stood beside their assets
/// still do.
pub proof fn lemma_refreshed_aligned(
    list: Seq<LstState>,
    bindings: Seq<Option<LstData>>,
    lsts: Seq<LstRefresh>,
)
    requires
        aligned(list, bindings),
    ensures
        aligned(list, bindings_refreshed(bindings, lsts)),
{
    let out = bindings_refreshed(bindings, lsts);
    assert forall|i: int| 0 <= i < list.len() implies match #[trigger] out[i] {
        Some(ld) => ld.sol_val_calc.lst_mint == list[i].mint && ld.sol_val_calc.program_id
            == list[i].sol_value_calculator,
        None => true,
    } by {
        let _ = bindings[i];
    }
}

/// Applies the batch to each binding.
pub fn refresh_bindings(bindings: &[Option<LstData>], lsts: &[LstRefresh]) -> (r: (
    Vec<Option<LstData>>,
    Result<(), Error>,
))
    ensures
        r.0@ == bindings_refreshed(bindings@, lsts@),
        r.1 == bindings_outcome(bindings@, lsts@, bindings@.len() as int),
{
    let mut out: Vec<Option<LstData>> = Vec::new();
    let mut res: Result<(), Error> = Ok(());
    let mut i: usize = 0;
    while i < bindings.len()
        invariant
            0 <= i <= bindings@.len(),
            out@.len() == i,
            forall|k: int| 0 <= k < i ==> out@[k] == bindings_refreshed(bindings@, lsts@)[k],
            res == bindings_outcome(bindings@, lsts@, i as int),
        decreases bindings@.len() - i,
    {
        let mut next = bindings[i];
        let mut outcome: Result<(), Error> = Ok(());
        if i < lsts.len() {
            if let Some(ld) = bindings[i] {
                let balance_outcome: Result<(), Error> = match lsts[i].reserves {
                    Fetched::Parsed(balance) => {
                        next = Some(LstData { reserves_balance: Some(balance), ..ld });
                        Ok(())
                    },
                    Fetched::Failed(e) => Err(e),
                    Fetched::Missing => Ok(()),
                };
                outcome = and_then_keep(lsts[i].calculator, balance_outcome);
            }
        }
        out.push(next);
        res = and_then_keep(res, outcome);
        i += 1;
    }
    assert(out@ =~= bindings_refreshed(bindings@, lsts@));
    (out, res)
}

/// The mirror after the bindings and the pricing policy took the batch.
pub open spec fn after_bindings(v: SPoolJupView, refresh: Refresh) -> (
    SPoolJupView,
    Result<(), Error>,
) {
    let res = bindings_outcome(v.lst_data_list, refresh.lsts@, v.lst_data_list.len() as int);
    (
        SPoolJupView { lst_data_list: bindings_refreshed(v.lst_data_list, refresh.lsts@), ..v },
        if v.pricing_prog is Some {
            first_err(res, refresh.pricing)
        } else {
            res
        },
    )
}

/// The mirror after the asset list of the batch: a decoded list is
/// reconciled with the bindings and replaces the old one.
pub open spec fn after_lst_state_list(
    v: SPoolJupView,
    res: Result<(), Error>,
    fetched: Fetched<Vec<LstState>>,
) -> (SPoolJupView, Result<(), Error>) {
    match fetched {
        Fetched::Missing => (v, res),
        Fetched::Failed(e) => (v, first_err(res, Err(e))),
        Fetched::Parsed(list) => (
            SPoolJupView {
                lst_state_list: list@,
                lst_data_list: reconciled(v.lst_state_list, v.lst_data_list, list@),
                ..v
            },
            res,
        ),
    }
}

/// A fetched pool state has its pricing policy bound where the mirror held no
/// pool state, where it has no policy bound, or where the pool state it held
/// names another policy.
pub open spec fn binds_pricing(v: SPoolJupView, fetched: PoolState) -> bool {
    match (v.pool_state, v.pricing_prog) {
        (Some(held), Some(_)) => held.pricing_program != fetched.pricing_program,
        _ => true,
    }
}

/// The mirror after the pool state of the batch: a decoded pool state
/// replaces the old one. Where its pricing policy is to be bound, the policy
/// it names is bound and its outcome counts; where that policy is not known,
/// none is bound and `Unresolvable` counts as the outcome.
pub open spec fn after_pool_state(
    v: SPoolJupView,
    res: Result<(), Error>,
    fetched: Fetched<PoolState>,
    rebound_pricing: Result<(), Error>,
    programs: KnownPrograms,
) -> (SPoolJupView, Result<(), Error>) {
    match fetched {
        Fetched::Missing => (v, res),
        Fetched::Failed(e) => (v, first_err(res, Err(e))),
        Fetched::Parsed(ps) => if binds_pricing(v, ps) {
            match pricing_for(ps, programs) {
                Ok(pp) => (
                    SPoolJupView { pool_state: Some(ps), pricing_prog: Some(pp), ..v },
                    first_err(res, rebound_pricing),
                ),
                Err(e) => (
                    SPoolJupView { pool_state: Some(ps), pricing_prog: None, ..v },
                    first_err(res, Err(e)),
                ),
            }
        } else {
            (SPoolJupView { pool_state: Some(ps), ..v }, res)
        },
    }
}

/// The mirror after the LP token's supply of the batch, which is read only
/// where a pool state is there.
pub open spec fn after_lp_mint(v: SPoolJupView, res: Result<(), Error>, fetched: Fetched<u64>) -> (
    SPoolJupView,
    Result<(), Error>,
) {
    if v.pool_state is None {
        (v, res)
    } else {
        match fetched {
            Fetched::Missing => (v, res),
            Fetched::Failed(e) => (v, first_err(res, Err(e))),
            Fetched::Parsed(supply) => (SPoolJupView { lp_mint_supply: Some(supply), ..v }, res),
        }
    }
}

/// The pool state that the mirror holds after a batch: the fetched one where
/// it could be decoded.
pub open spec fn pool_state_after(held: Option<PoolState>, fetched: Fetched<PoolState>) -> Option<
    PoolState,
> {
    match fetched {
        Fetched::Parsed(ps) => Some(ps),
        _ => held,
    }
}

/// The asset list that the mirror holds after a batch: the fetched one where
/// it could be decoded.
pub open spec fn lst_state_list_after(held: Seq<LstState>, fetched: Fetched<Vec<LstState>>) -> Seq<
    LstState,
> {
    match fetched {
        Fetched::Parsed(list) => list@,
        _ => held,
    }
}

/// The mirror after the parts of a batch that come before the pool state,
/// and the first failure among them.
pub open spec fn before_pool_state(v: SPoolJupView, refresh: Refresh) -> (
    SPoolJupView,
    Result<(), Error>,
) {
    let a = after_bindings(v, refresh);
    after_lst_state_list(a.0, a.1, refresh.lst_state_list)
}

/// The mirror after a whole batch, and the first failure met.
pub open spec fn updated(v: SPoolJupView, refresh: Refresh, programs: KnownPrograms) -> (
    SPoolJupView,
    Result<(), Error>,
) {
    let b = before_pool_state(v, refresh);
    let c = after_pool_state(b.0, b.1, refresh.pool_state, refresh.rebound_pricing, programs);
    after_lp_mint(c.0, c.1, refresh.lp_mint_supply)
}

/// Promotion: a batch that brings a pool state with a known pricing policy
/// to a mirror that held no pool state leaves the mirror with that pool state
/// and with that policy bound.
pub proof fn lemma_first_pool_state_promotes(
    v: SPoolJupView,
    refresh: Refresh,
    programs: KnownPrograms,
)
    requires
        v.pool_state is None,
        refresh.pool_state is Parsed,
        pricing_for(refresh.pool_state->Parsed_0, programs) is Ok,
    ensures
        updated(v, refresh, programs).0.pool_state == Some(refresh.pool_state->Parsed_0),
        updated(v, refresh, programs).0.pricing_prog == Some(
            pricing_for(refresh.pool_state->Parsed_0, programs)->Ok_0,
        ),
{
}

/// A batch whose pool state names a pricing policy that is not known, where
/// one is to be bound, takes the pool state in, leaves no policy bound, and
/// is reported as failed; if no earlier part failed, with `Unresolvable`.
pub proof fn lemma_unknown_policy_is_reported(
    v: SPoolJupView,
    refresh: Refresh,
    programs: KnownPrograms,
)
    requires
        refresh.pool_state is Parsed,
        pricing_for(refresh.pool_state->Parsed_0, programs) is Err,
        binds_pricing(v, refresh.pool_state->Parsed_0),
    ensures
        updated(v, refresh, programs).0.pool_state == Some(refresh.pool_state->Parsed_0),
        updated(v, refresh, programs).0.pricing_prog is None,
        updated(v, refresh, programs).1 is Err,
        before_pool_state(v, refresh).1 is Ok ==> updated(v, refresh, programs).1 == Err::<
            (),
            Error,
        >(Error::Unresolvable),
{
}

/// What one asset adds to the accounts to refresh: its calculator's accounts,
/// then its reserves. An asset without a binding adds nothing.
pub open spec fn lst_accounts(binding: Option<LstData>, accounts: LstAccounts) -> Seq<Pubkey> {
    if binding is Some {
        accounts.calculator@ + (match accounts.reserves {
            Some(a) => seq![a],
            None => Seq::<Pubkey>::empty(),
        })
    } else {
        Seq::<Pubkey>::empty()
    }
}

/// What the first `n` assets add to the accounts to refresh.
pub open spec fn all_lst_accounts(
    bindings: Seq<Option<LstData>>,
    accounts: Seq<LstAccounts>,
    n: int,
) -> Seq<Pubkey>
    decreases n,
{
    if n <= 0 {
        Seq::<Pubkey>::empty()
    } else {
        all_lst_accounts(bindings, accounts, n - 1) + (if n - 1 < bindings.len() && n - 1
            < accounts.len() {
            lst_accounts(bindings[n - 1], accounts[n - 1])
        } else {
            Seq::<Pubkey>::empty()
        })
    }
}

/// The number of assets that have a slot in both lists of the mirror.
pub open spec fn paired_len(v: SPoolJupView) -> int {
    if v.lst_state_list.len() <= v.lst_data_list.len() {
        v.lst_state_list.len() as int
    } else {
        v.lst_data_list.len() as int
    }
}

/// The accounts that the next batch should hold: the asset list, the pool
/// state, the bound pricing policy's accounts, the LP token's mint once the
/// pool state is known, and what each bound asset adds.
pub open spec fn accounts_to_update(
    v: SPoolJupView,
    pricing_accounts: Seq<Pubkey>,
    accounts: Seq<LstAccounts>,
) -> Seq<Pubkey> {
    seq![v.lst_state_list_addr, v.pool_state_addr] + (if v.pricing_prog is Some {
        pricing_accounts
    } else {
        Seq::<Pubkey>::empty()
    }) + (match v.pool_state {
        Some(ps) => seq![ps.lp_token_mint],
        None => Seq::<Pubkey>::empty(),
    }) + all_lst_accounts(v.lst_data_list, accounts, paired_len(v))
}

impl SPoolJup {
    /// Lists the accounts that the next batch should hold.
    ///
    /// `pricing_accounts` are those of the bound pricing policy, and
    /// `lst_accounts` holds, index by index, those of each asset.
    pub fn get_accounts_to_update(
        &self,
        pricing_accounts: &[Pubkey],
        lst_accounts: &[LstAccounts],
    ) -> (r: Vec<Pubkey>)
        ensures
            r@ == accounts_to_update(self@, pricing_accounts@, lst_accounts@),
    {
        let mut res: Vec<Pubkey> = Vec::new();
        res.push(self.lst_state_list_addr);
        res.push(self.pool_state_addr);
        if self.pricing_prog.is_some() {
            append_copies(&mut res, pricing_accounts);
        }
        if let Some(ps) = &self.pool_state_account {
            res.push(ps.lp_token_mint);
        }
        let ghost head = res@;
        let n: usize = if self.lst_state_list_account.len() <= self.lst_data_list.len() {
            self.lst_state_list_account.len()
        } else {
            self.lst_data_list.len()
        };
        let mut i: usize = 0;
        while i < n
            invariant
                0 <= i <= n,
                n == paired_len(self@),
                n <= self.lst_data_list@.len(),
                res@ == head + all_lst_accounts(self.lst_data_list@, lst_accounts@, i as int),
            decreases n - i,
        {
            if i < lst_accounts.len() && self.lst_data_list[i].is_some() {
                append_copies(&mut res, lst_accounts[i].calculator.as_slice());
                if let Some(a) = lst_accounts[i].reserves {
                    res.push(a);
                }
            }
            assert(res@ =~= head + all_lst_accounts(
                self.lst_data_list@,
                lst_accounts@,
                i as int + 1,
            ));
            i += 1;
        }
        assert(res@ =~= accounts_to_update(self@, pricing_accounts@, lst_accounts@));
        res
    }

    /// The mint of the LP token that the mirror will know after a batch with
    /// the given pool state; the batch should hold the supply of that mint.
    pub fn lp_token_mint_after(&self, pool_state: &Fetched<PoolState>) -> (r: Option<Pubkey>)
        ensures
            r == (match pool_state_after(self.pool_state_account, *pool_state) {
                Some(ps) => Some(ps.lp_token_mint),
                None => None,
            }),
    {
        match pool_state {
            Fetched::Parsed(ps) => Some(ps.lp_token_mint),
            _ => match &self.pool_state_account {
                Some(ps) => Some(ps.lp_token_mint),
                None => None,
            },
        }
    }

    /// The mints of the asset list that the mirror will hold after a batch
    /// with the given list; a pricing policy bound by that batch prices these.
    pub fn mints_after(&self, lst_state_list: &Fetched<Vec<LstState>>) -> (r: Vec<Pubkey>)
        ensures
            r@ == mints_of(lst_state_list_after(self.lst_state_list_account@, *lst_state_list)),
    {
        match lst_state_list {
            Fetched::Parsed(list) => list_mints(list.as_slice()),
            _ => list_mints(self.lst_state_list_account.as_slice()),
        }
    }

    /// Applies a batch of fetched accounts.
    ///
    /// Every part that can be applied is applied, also after a failure, and
    /// the first failure is returned.
    pub fn update(&mut self, refresh: Refresh, programs: &KnownPrograms) -> (r: Result<(), Error>)
        ensures
            final(self)@ == updated(old(self)@, refresh, *programs).0,
            r == updated(old(self)@, refresh, *programs).1,
            final(self)@.pool_state == pool_state_after(old(self)@.pool_state, refresh.pool_state),
            final(self)@.lst_state_list == lst_state_list_after(
                old(self)@.lst_state_list,
                refresh.lst_state_list,
            ),
            old(self).wf() ==> final(self).wf(),
    {
        let Refresh { lsts, pricing, lst_state_list, pool_state, rebound_pricing, lp_mint_supply } =
            refresh;
        let (bindings, outcome) = refresh_bindings(self.lst_data_list.as_slice(), lsts.as_slice());
        self.lst_data_list = bindings;
        let mut res = outcome;
        if self.pricing_prog.is_some() {
            res = and_then_keep(res, pricing);
        }
        assert((self@, res) == after_bindings(old(self)@, refresh));
        let ghost a = (self@, res);
        match lst_state_list {
            Fetched::Missing => {},
            Fetched::Failed(e) => {
                res = and_then_keep(res, Err(e));
            },
            Fetched::Parsed(list) => {
                self.update_lst_state_list(list);
            },
        }
        assert((self@, res) == before_pool_state(old(self)@, refresh));
        let ghost b = (self@, res);
        match pool_state {
            Fetched::Missing => {},
            Fetched::Failed(e) => {
                res = and_then_keep(res, Err(e));
            },
            Fetched::Parsed(ps) => {
                let binds = match (&self.pool_state_account, &self.pricing_prog) {
                    (Some(held), Some(_)) => held.pricing_program != ps.pricing_program,
                    _ => true,
                };
                if binds {
                    match try_pricing_prog(&ps, programs) {
                        Ok(pp) => {
                            self.pricing_prog = Some(pp);
                            res = and_then_keep(res, rebound_pricing);
                        },
                        Err(e) => {
                            self.pricing_prog = None;
                            res = and_then_keep(res, Err(e));
                        },
                    }
                }
                self.pool_state_account = Some(ps);
            },
        }
        assert((self@, res) == after_pool_state(
            b.0,
            b.1,
            refresh.pool_state,
            refresh.rebound_pricing,
            *programs,
        ));
        if self.pool_state_account.is_some() {
            match lp_mint_supply {
                Fetched::Missing => {},
                Fetched::Failed(e) => {
                    res = and_then_keep(res, Err(e));
                },
                Fetched::Parsed(supply) => {
                    self.lp_mint_supply = Some(supply);
                },
            }
        }
        res
    }
}

} // verus!
