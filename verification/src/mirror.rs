//! The pool mirror: the last fetched state of the pool and of its assets,
//! with the calculator bound to each asset and the bound pricing policy.
use crate::reconcile::{aligned, distinct_mints, reconcile, reconciled};
use crate::swap_ix::{find_lst_index, index_of_mint};
use crate::types::{
    CalcFamily, Error, Fetched, KnownPrograms, LstData, LstState, Missing, PoolInfo, PoolState,
    PricingProg, Pubkey, SPoolInitAccounts, SanctumLst, SolValCalc,
};
use vstd::prelude::*;

verus! {

/// The mirror of one pool.
#[derive(Clone, Debug)]
pub struct SPoolJup {
    pub program_id: Pubkey,
    pub lst_state_list_addr: Pubkey,
    pub pool_state_addr: Pubkey,
    pub lp_mint_supply: Option<u64>,
    /// Absent until the pool state has been fetched once.
    pub pool_state_account: Option<PoolState>,
    pub lst_state_list_account: Vec<LstState>,
    pub pricing_prog: Option<PricingProg>,
    /// Index by index beside the asset list. `None` where the mirror does not
    /// know how to value the asset.
    pub lst_data_list: Vec<Option<LstData>>,
}

/// A mirror as a mathematical value.
pub struct SPoolJupView {
    pub program_id: Pubkey,
    pub lst_state_list_addr: Pubkey,
    pub pool_state_addr: Pubkey,
    pub lp_mint_supply: Option<u64>,
    pub pool_state: Option<PoolState>,
    pub lst_state_list: Seq<LstState>,
    pub pricing_prog: Option<PricingProg>,
    pub lst_data_list: Seq<Option<LstData>>,
}

impl View for SPoolJup {
    type V = SPoolJupView;

    open spec fn view(&self) -> SPoolJupView {
        SPoolJupView {
            program_id: self.program_id,
            lst_state_list_addr: self.lst_state_list_addr,
            pool_state_addr: self.pool_state_addr,
            lp_mint_supply: self.lp_mint_supply,
            pool_state: self.pool_state_account,
            lst_state_list: self.lst_state_list_account@,
            pricing_prog: self.pricing_prog,
            lst_data_list: self.lst_data_list@,
        }
    }
}

/// The first entry of the catalog, at or after `from`, for the given mint.
pub open spec fn catalog_entry(lst_list: Seq<SanctumLst>, mint: Pubkey, from: int) -> Option<
    SanctumLst,
>
    decreases lst_list.len() - from,
{
    if from < 0 || from >= lst_list.len() {
        None
    } else if lst_list[from].mint == mint {
        Some(lst_list[from])
    } else {
        catalog_entry(lst_list, mint, from + 1)
    }
}

/// The calculator that values an asset staked as `pool` says; an asset that
/// is itself a pool of this kind has none.
pub open spec fn calculator_for(pool: PoolInfo, mint: Pubkey, programs: KnownPrograms) -> Option<
    SolValCalc,
> {
    match pool {
        PoolInfo::Lido => Some(
            SolValCalc {
                family: CalcFamily::Lido,
                lst_mint: mint,
                program_id: programs.lido_calculator,
            },
        ),
        PoolInfo::Marinade => Some(
            SolValCalc {
                family: CalcFamily::Marinade,
                lst_mint: mint,
                program_id: programs.marinade_calculator,
            },
        ),
        PoolInfo::ReservePool => Some(
            SolValCalc {
                family: CalcFamily::Wsol,
                lst_mint: mint,
                program_id: programs.wsol_calculator,
            },
        ),
        PoolInfo::SanctumSpl { pool } => Some(
            SolValCalc {
                family: CalcFamily::SanctumSpl { stake_pool: pool },
                lst_mint: mint,
                program_id: programs.sanctum_spl_calculator,
            },
        ),
        PoolInfo::Spl { pool } => Some(
            SolValCalc {
                family: CalcFamily::Spl { stake_pool: pool },
                lst_mint: mint,
                program_id: programs.spl_calculator,
            },
        ),
        PoolInfo::SPool { program_id } => None,
    }
}

/// The binding that the catalog gives an asset: none where the catalog does
/// not list it, where it has no calculator, or where the pool names another
/// calculator program than the catalog's.
pub open spec fn lst_data_for(
    lst_list: Seq<SanctumLst>,
    lst_state: LstState,
    programs: KnownPrograms,
) -> Option<LstData> {
    match catalog_entry(lst_list, lst_state.mint, 0) {
        None => None,
        Some(entry) => match calculator_for(entry.pool, lst_state.mint, programs) {
            None => None,
            Some(calc) => if lst_state.sol_value_calculator != calc.program_id {
                None
            } else {
                Some(
                    LstData {
                        sol_val_calc: calc,
                        reserves_balance: None,
                        token_program: entry.token_program,
                    },
                )
            },
        },
    }
}

/// Looks an asset up in the catalog.
pub fn find_in_catalog(lst_list: &[SanctumLst], mint: Pubkey) -> (r: Option<SanctumLst>)
    ensures
        r == catalog_entry(lst_list@, mint, 0),
{
    let mut i: usize = 0;
    while i < lst_list.len()
        invariant
            0 <= i <= lst_list@.len(),
            catalog_entry(lst_list@, mint, 0) == catalog_entry(lst_list@, mint, i as int),
        decreases lst_list@.len() - i,
    {
        if lst_list[i].mint == mint {
            return Some(lst_list[i]);
        }
        i += 1;
    }
    None
}

/// Binds a calculator to an asset from the catalog.
pub fn try_lst_data(lst_list: &[SanctumLst], lst_state: &LstState, programs: &KnownPrograms) -> (r:
    Option<LstData>)
    ensures
        r == lst_data_for(lst_list@, *lst_state, *programs),
{
    let entry = match find_in_catalog(lst_list, lst_state.mint) {
        Some(e) => e,
        None => {
            return None;
        },
    };
    let mint = lst_state.mint;
    let calc = match entry.pool {
        PoolInfo::Lido => SolValCalc {
            family: CalcFamily::Lido,
            lst_mint: mint,
            program_id: programs.lido_calculator,
        },
        PoolInfo::Marinade => SolValCalc {
            family: CalcFamily::Marinade,
            lst_mint: mint,
            program_id: programs.marinade_calculator,
        },
        PoolInfo::ReservePool => SolValCalc {
            family: CalcFamily::Wsol,
            lst_mint: mint,
            program_id: programs.wsol_calculator,
        },
        PoolInfo::SanctumSpl { pool } => SolValCalc {
            family: CalcFamily::SanctumSpl { stake_pool: pool },
            lst_mint: mint,
            program_id: programs.sanctum_spl_calculator,
        },
        PoolInfo::Spl { pool } => SolValCalc {
            family: CalcFamily::Spl { stake_pool: pool },
            lst_mint: mint,
            program_id: programs.spl_calculator,
        },
        PoolInfo::SPool { program_id: _ } => {
            return None;
        },
    };
    if lst_state.sol_value_calculator != calc.program_id {
        None
    } else {
        Some(LstData { sol_val_calc: calc, reserves_balance: None, token_program: entry.token_program })
    }
}

/// The pricing policy that a pool state names, if the mirror knows it.
pub open spec fn pricing_for(pool_state: PoolState, programs: KnownPrograms) -> Result<
    PricingProg,
    Error,
> {
    if pool_state.pricing_program == programs.flat_fee_pricing {
        Ok(PricingProg { program_id: pool_state.pricing_program })
    } else {
        Err(Error::Unresolvable)
    }
}

/// Binds the pricing policy that the pool state names.
pub fn try_pricing_prog(pool_state: &PoolState, programs: &KnownPrograms) -> (r: Result<
    PricingProg,
    Error,
>)
    ensures
        r == pricing_for(*pool_state, *programs),
{
    if pool_state.pricing_program == programs.flat_fee_pricing {
        Ok(PricingProg { program_id: pool_state.pricing_program })
    } else {
        Err(Error::Unresolvable)
    }
}

/// The asset with the given mint and its binding, taken from the two lists
/// side by side.
pub open spec fn ready_lst(
    lst_state_list: Seq<LstState>,
    lst_data_list: Seq<Option<LstData>>,
    mint: Pubkey,
) -> Result<(LstState, LstData), Error> {
    match index_of_mint(lst_state_list, mint, 0) {
        None => Err(Error::NotFound(mint)),
        Some(i) => if i >= lst_data_list.len() {
            Err(Error::NotFound(mint))
        } else {
            match lst_data_list[i] {
                None => Err(Error::Unsupported(mint)),
                Some(ld) => Ok((lst_state_list[i], ld)),
            }
        },
    }
}

/// The mints of a list of assets.
pub open spec fn mints_of(lst_state_list: Seq<LstState>) -> Seq<Pubkey> {
    Seq::new(lst_state_list.len(), |i: int| lst_state_list[i].mint)
}

/// Lists the mints of the assets, in order.
pub fn list_mints(lst_state_list: &[LstState]) -> (r: Vec<Pubkey>)
    ensures
        r@ == mints_of(lst_state_list@),
{
    let mut res: Vec<Pubkey> = Vec::new();
    let mut i: usize = 0;
    while i < lst_state_list.len()
        invariant
            0 <= i <= lst_state_list@.len(),
            res@.len() == i,
            forall|k: int| 0 <= k < i ==> res@[k] == lst_state_list@[k].mint,
        decreases lst_state_list@.len() - i,
    {
        res.push(lst_state_list[i].mint);
        i += 1;
    }
    assert(res@ =~= mints_of(lst_state_list@));
    res
}

/// What a fetched account gives: its value, its own decoding error, or
/// `NotReady` with the name `what` where it was not fetched.
pub open spec fn fetched_value<T>(f: Fetched<T>, what: Missing) -> Result<T, Error> {
    match f {
        Fetched::Missing => Err(Error::NotReady(what)),
        Fetched::Failed(e) => Err(e),
        Fetched::Parsed(v) => Ok(v),
    }
}

/// The mirror that is built from an asset list alone.
pub open spec fn built(
    program_id: Pubkey,
    init: SPoolInitAccounts,
    lst_state_list: Seq<LstState>,
    lst_list: Seq<SanctumLst>,
    programs: KnownPrograms,
) -> SPoolJupView {
    SPoolJupView {
        program_id,
        lst_state_list_addr: init.lst_state_list,
        pool_state_addr: init.pool_state,
        lp_mint_supply: None,
        pool_state: None,
        lst_state_list,
        pricing_prog: None,
        lst_data_list: Seq::new(
            lst_state_list.len(),
            |i: int| lst_data_for(lst_list, lst_state_list[i], programs),
        ),
    }
}

/// A mirror built from a list that names no asset twice has every binding
/// beside the asset it values.
pub proof fn lemma_built_aligned(
    program_id: Pubkey,
    init: SPoolInitAccounts,
    lst_state_list: Seq<LstState>,
    lst_list: Seq<SanctumLst>,
    programs: KnownPrograms,
)
    requires
        distinct_mints(lst_state_list),
    ensures
        aligned(
            lst_state_list,
            built(program_id, init, lst_state_list, lst_list, programs).lst_data_list,
        ),
{
}

impl SPoolJup {
    /// The two lists are of one length.
    pub open spec fn wf(&self) -> bool {
        self.lst_state_list_account@.len() == self.lst_data_list@.len()
    }

    /// The pool state, once fetched.
    pub fn pool_state(&self) -> (r: Result<&PoolState, Error>)
        ensures
            match self.pool_state_account {
                Some(ps) => r == Ok::<&PoolState, Error>(&ps),
                None => r == Err::<&PoolState, Error>(Error::NotReady(Missing::PoolState)),
            },
    {
        match &self.pool_state_account {
            Some(ps) => Ok(ps),
            None => Err(Error::NotReady(Missing::PoolState)),
        }
    }

    /// The asset list.
    pub fn lst_state_list(&self) -> (r: Result<&[LstState], Error>)
        ensures
            r is Ok,
            r->Ok_0@ == self.lst_state_list_account@,
    {
        Ok(self.lst_state_list_account.as_slice())
    }

    /// The bound pricing policy, once bound.
    pub fn pricing_prog(&self) -> (r: Result<&PricingProg, Error>)
        ensures
            match self.pricing_prog {
                Some(pp) => r == Ok::<&PricingProg, Error>(&pp),
                None => r == Err::<&PricingProg, Error>(Error::NotReady(Missing::PricingProg)),
            },
    {
        match &self.pricing_prog {
            Some(pp) => Ok(pp),
            None => Err(Error::NotReady(Missing::PricingProg)),
        }
    }

    /// Builds a mirror from the asset list: each asset is bound as the
    /// catalog says, and neither pool state nor pricing policy is there yet.
    pub fn from_lst_state_list_account(
        program_id: Pubkey,
        init_accounts: SPoolInitAccounts,
        lst_state_list: Vec<LstState>,
        lst_list: &[SanctumLst],
        programs: &KnownPrograms,
    ) -> (r: Self)
        ensures
            r@ == built(program_id, init_accounts, lst_state_list@, lst_list@, *programs),
            r.wf(),
    {
        let mut lst_data_list: Vec<Option<LstData>> = Vec::new();
        let mut i: usize = 0;
        while i < lst_state_list.len()
            invariant
                0 <= i <= lst_state_list@.len(),
                lst_data_list@.len() == i,
                forall|k: int|
                    0 <= k < i ==> lst_data_list@[k] == lst_data_for(
                        lst_list@,
                        lst_state_list@[k],
                        *programs,
                    ),
            decreases lst_state_list@.len() - i,
        {
            lst_data_list.push(try_lst_data(lst_list, &lst_state_list[i], programs));
            i += 1;
        }
        let r = SPoolJup {
            program_id,
            lst_state_list_addr: init_accounts.lst_state_list,
            pool_state_addr: init_accounts.pool_state,
            lp_mint_supply: None,
            pool_state_account: None,
            lst_state_list_account: lst_state_list,
            pricing_prog: None,
            lst_data_list,
        };
        assert(r@.lst_data_list =~= built(
            program_id,
            init_accounts,
            lst_state_list@,
            lst_list@,
            *programs,
        ).lst_data_list);
        r
    }

    /// Builds a mirror from the asset list and the pool state, and binds the
    /// pricing policy that the pool state names.
    ///
    /// Fails with what the asset list gives if it is missing or malformed,
    /// else with what the pool state gives, else with `Unresolvable` where the
    /// pricing policy is not known.
    pub fn from_fetched_accounts(
        program_id: Pubkey,
        init_accounts: SPoolInitAccounts,
        lst_state_list: Fetched<Vec<LstState>>,
        pool_state: Fetched<PoolState>,
        lst_list: &[SanctumLst],
        programs: &KnownPrograms,
    ) -> (r: Result<Self, Error>)
        ensures
            match (
                fetched_value(lst_state_list, Missing::LstStateList),
                fetched_value(pool_state, Missing::PoolState),
            ) {
                (Err(e), _) => r is Err && r->Err_0 == e,
                (Ok(_), Err(e)) => r is Err && r->Err_0 == e,
                (Ok(list), Ok(ps)) => match pricing_for(ps, *programs) {
                    Err(e) => r is Err && r->Err_0 == e,
                    Ok(pp) => r is Ok && r->Ok_0.wf() && r->Ok_0@ == (SPoolJupView {
                        pool_state: Some(ps),
                        pricing_prog: Some(pp),
                        ..built(program_id, init_accounts, list@, lst_list@, *programs)
                    }),
                },
            },
    {
        let list = match lst_state_list {
            Fetched::Parsed(v) => v,
            Fetched::Failed(e) => {
                return Err(e);
            },
            Fetched::Missing => {
                return Err(Error::NotReady(Missing::LstStateList));
            },
        };
        let ps = match pool_state {
            Fetched::Parsed(v) => v,
            Fetched::Failed(e) => {
                return Err(e);
            },
            Fetched::Missing => {
                return Err(Error::NotReady(Missing::PoolState));
            },
        };
        let pricing_prog = match try_pricing_prog(&ps, programs) {
            Ok(pp) => pp,
            Err(e) => {
                return Err(e);
            },
        };
        let mut res = Self::from_lst_state_list_account(
            program_id,
            init_accounts,
            list,
            lst_list,
            programs,
        );
        res.pool_state_account = Some(ps);
        res.pricing_prog = Some(pricing_prog);
        Ok(res)
    }

    /// Builds a mirror from the account that the host hands over, which must
    /// be the asset list of the program: any other key is refused with
    /// `NotFound`.
    pub fn from_keyed_account(
        key: Pubkey,
        program_id: Pubkey,
        init_accounts: SPoolInitAccounts,
        lst_state_list: Vec<LstState>,
        lst_list: &[SanctumLst],
        programs: &KnownPrograms,
    ) -> (r: Result<Self, Error>)
        ensures
            key != init_accounts.lst_state_list ==> r is Err && r->Err_0 == Error::NotFound(key),
            key == init_accounts.lst_state_list ==> r is Ok && r->Ok_0.wf() && r->Ok_0@ == built(
                program_id,
                init_accounts,
                lst_state_list@,
                lst_list@,
                *programs,
            ),
    {
        if key != init_accounts.lst_state_list {
            return Err(Error::NotFound(key));
        }
        Ok(
            Self::from_lst_state_list_account(
                program_id,
                init_accounts,
                lst_state_list,
                lst_list,
                programs,
            ),
        )
    }

    /// Finds an asset by its mint, with its binding: `NotFound` where the
    /// mint is not listed, `Unsupported` where it is listed without a binding.
    pub fn find_ready_lst(&self, lst_mint: Pubkey) -> (r: Result<(LstState, LstData), Error>)
        ensures
            r == ready_lst(self.lst_state_list_account@, self.lst_data_list@, lst_mint),
    {
        let i = match find_lst_index(self.lst_state_list_account.as_slice(), lst_mint) {
            Some(i) => i,
            None => {
                return Err(Error::NotFound(lst_mint));
            },
        };
        if i >= self.lst_data_list.len() {
            return Err(Error::NotFound(lst_mint));
        }
        match self.lst_data_list[i] {
            Some(ld) => Ok((self.lst_state_list_account[i], ld)),
            None => Err(Error::Unsupported(lst_mint)),
        }
    }

    /// Takes a new asset list in: the bindings are reconciled with it, and it
    /// replaces the list the mirror held.
    pub fn update_lst_state_list(&mut self, new_lst_state_list: Vec<LstState>)
        ensures
            final(self)@ == (SPoolJupView {
                lst_state_list: new_lst_state_list@,
                lst_data_list: reconciled(
                    old(self).lst_state_list_account@,
                    old(self).lst_data_list@,
                    new_lst_state_list@,
                ),
                ..old(self)@
            }),
            old(self).wf() ==> final(self).wf(),
    {
        let new_lst_data_list = reconcile(
            self.lst_state_list_account.as_slice(),
            self.lst_data_list.as_slice(),
            new_lst_state_list.as_slice(),
        );
        self.lst_data_list = new_lst_data_list;
        self.lst_state_list_account = new_lst_state_list;
    }

    /// The assets that the pool trades: the listed mints in order, then the
    /// LP token's mint once the pool state is known.
    pub fn get_reserve_mints(&self) -> (r: Vec<Pubkey>)
        ensures
            r@ == mints_of(self.lst_state_list_account@) + (match self.pool_state_account {
                Some(ps) => seq![ps.lp_token_mint],
                None => Seq::<Pubkey>::empty(),
            }),
    {
        let mut res = list_mints(self.lst_state_list_account.as_slice());
        if let Some(ps) = &self.pool_state_account {
            res.push(ps.lp_token_mint);
        }
        assert(res@ =~= mints_of(self.lst_state_list_account@) + (match self.pool_state_account {
            Some(ps) => seq![ps.lp_token_mint],
            None => Seq::<Pubkey>::empty(),
        }));
        res
    }

    /// The name under which the pool is listed.
    pub fn label(&self) -> (r: String)
        ensures
            r@ == "Sanctum Infinity"@,
    {
        "Sanctum Infinity".to_string()
    }

    /// The program that runs the pool.
    pub fn program_id(&self) -> (r: Pubkey)
        ensures
            r == self.program_id,
    {
        self.program_id
    }

    /// The pool's key: there is one pool per program.
    pub fn key(&self) -> (r: Pubkey)
        ensures
            r == self.program_id,
    {
        self.program_id()
    }

    /// The accounts to refresh change with the pool's state.
    pub fn has_dynamic_accounts(&self) -> (r: bool)
        ensures
            r,
    {
        true
    }

    /// Exact-output swaps are announced as supported.
    pub fn supports_exact_out(&self) -> (r: bool)
        ensures
            r,
    {
        true
    }
}

} // verus!
