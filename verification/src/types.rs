//! Plain data shared by every component of the pool mirror.
use vstd::prelude::*;

verus! {

/// A 32-byte account address, held as two 128-bit halves.
#[derive(Clone, Copy, Debug, PartialEq, Eq, Structural, Hash, PartialOrd, Ord)]
pub struct Pubkey {
    pub hi: u128,
    pub lo: u128,
}

/// The piece of state that an operation needed and did not find.
#[derive(Clone, Copy, Debug, PartialEq, Eq, Structural)]
pub enum Missing {
    /// The pool state.
    PoolState,
    /// The asset list.
    LstStateList,
    /// The bound pricing policy.
    PricingProg,
    /// The balance of the reserves of the asset with this mint.
    ReservesBalance(Pubkey),
    /// The answer that a quote session asked for: one of another kind came.
    Answer,
}

/// Why an operation of the mirror could not be carried out.
#[derive(Clone, Copy, Debug, PartialEq, Eq, Structural)]
pub enum Error {
    /// Required state has not been fetched yet; the error names what is missing.
    NotReady(Missing),
    /// Nothing is listed under this address.
    NotFound(Pubkey),
    /// The asset with this mint is listed but no calculator is bound to it.
    Unsupported(Pubkey),
    /// A snapshot could not be decoded.
    MalformedState,
    /// A conversion step yielded a zero amount.
    ZeroValue,
    /// The output would be worth more than the input.
    ValueLoss,
    /// Arithmetic or index overflow.
    Overflow,
    /// A pricing policy or calculator family is not recognised.
    Unresolvable,
}

/// The pool's configuration, as last fetched.
#[derive(Clone, Copy, Debug, PartialEq, Eq, Structural)]
pub struct PoolState {
    pub admin: Pubkey,
    pub lp_token_mint: Pubkey,
    pub pricing_program: Pubkey,
    pub trading_protocol_fee_bps: u16,
    pub lp_protocol_fee_bps: u16,
    pub total_sol_value: u64,
}

/// One supported asset. Its position in the list is the index that the
/// instruction format uses.
#[derive(Clone, Copy, Debug, PartialEq, Eq, Structural)]
pub struct LstState {
    pub mint: Pubkey,
    pub sol_value_calculator: Pubkey,
    pub sol_value: u64,
    pub pool_reserves_bump: u8,
    pub protocol_fee_accumulator_bump: u8,
    pub is_input_disabled: bool,
}

/// The family of a value calculator, with the parameters it was built from.
#[derive(Clone, Copy, Debug, PartialEq, Eq, Structural)]
pub enum CalcFamily {
    Lido,
    Marinade,
    Wsol,
    SanctumSpl { stake_pool: Pubkey },
    Spl { stake_pool: Pubkey },
}

/// A bound value calculator: its family and its identity, the pair of the
/// asset it values and the program that implements it.
#[derive(Clone, Copy, Debug, PartialEq, Eq, Structural)]
pub struct SolValCalc {
    pub family: CalcFamily,
    pub lst_mint: Pubkey,
    pub program_id: Pubkey,
}

/// What the mirror keeps beside an asset it knows how to value.
#[derive(Clone, Copy, Debug, PartialEq, Eq)]
pub struct LstData {
    pub sol_val_calc: SolValCalc,
    pub reserves_balance: Option<u64>,
    pub token_program: Pubkey,
}

/// The bound pricing policy.
#[derive(Clone, Copy, Debug, PartialEq, Eq, Structural)]
pub struct PricingProg {
    pub program_id: Pubkey,
}

/// How an asset of the catalog is staked.
#[derive(Clone, Copy, Debug, PartialEq, Eq, Structural)]
pub enum PoolInfo {
    Lido,
    Marinade,
    ReservePool,
    SanctumSpl { pool: Pubkey },
    Spl { pool: Pubkey },
    SPool { program_id: Pubkey },
}

/// One entry of the catalog of known assets.
#[derive(Clone, Copy, Debug, PartialEq, Eq, Structural)]
pub struct SanctumLst {
    pub mint: Pubkey,
    pub token_program: Pubkey,
    pub pool: PoolInfo,
}

/// The program identifiers of the calculator families and of the pricing
/// policy that the mirror knows.
#[derive(Clone, Copy, Debug, PartialEq, Eq, Structural)]
pub struct KnownPrograms {
    pub lido_calculator: Pubkey,
    pub marinade_calculator: Pubkey,
    pub wsol_calculator: Pubkey,
    pub sanctum_spl_calculator: Pubkey,
    pub spl_calculator: Pubkey,
    pub flat_fee_pricing: Pubkey,
}

/// The two accounts that must be fetched before a mirror can be built.
#[derive(Clone, Copy, Debug, PartialEq, Eq, Structural, Hash, PartialOrd, Ord)]
pub struct SPoolInitAccounts {
    pub lst_state_list: Pubkey,
    pub pool_state: Pubkey,
}

impl SPoolInitAccounts {
    /// The two addresses, the asset list first.
    pub fn to_array(self) -> (r: [Pubkey; 2])
        ensures
            r@ == seq![self.lst_state_list, self.pool_state],
    {
        let r = [self.lst_state_list, self.pool_state];
        assert(r@ =~= seq![self.lst_state_list, self.pool_state]);
        r
    }
}

/// An interval of amounts: a conversion may round either way.
#[derive(Clone, Copy, Debug, PartialEq, Eq, Structural)]
pub struct U64ValueRange {
    pub min: u64,
    pub max: u64,
}

impl U64ValueRange {
    /// The lower bound, which callers use to stay conservative.
    pub fn get_min(&self) -> (r: u64)
        ensures
            r == self.min,
    {
        self.min
    }
}

/// What a refresh holds for one account: nothing, something that could not
/// be decoded, or the decoded value.
#[derive(Clone, Copy, Debug, PartialEq, Eq)]
pub enum Fetched<T> {
    Missing,
    Failed(Error),
    Parsed(T),
}

/// The first error of two outcomes, both of which have already taken effect.
pub open spec fn first_err(a: Result<(), Error>, b: Result<(), Error>) -> Result<(), Error> {
    if a is Err {
        a
    } else {
        b
    }
}

/// Keeps the first error of two outcomes.
pub fn and_then_keep(a: Result<(), Error>, b: Result<(), Error>) -> (r: Result<(), Error>)
    ensures
        r == first_err(a, b),
{
    match a {
        Err(e) => Err(e),
        Ok(()) => b,
    }
}

/// Appends a copy of each item of `more` to `list`.
pub fn append_copies<T: Copy>(list: &mut Vec<T>, more: &[T])
    ensures
        final(list)@ == old(list)@ + more@,
{
    let mut i: usize = 0;
    while i < more.len()
        invariant
            0 <= i <= more@.len(),
            list@ == old(list)@ + more@.take(i as int),
        decreases more@.len() - i,
    {
        list.push(more[i]);
        assert(more@.take(i as int).push(more@[i as int]) =~= more@.take(i as int + 1));
        assert(list@ =~= old(list)@ + more@.take(i as int + 1));
        i += 1;
    }
    assert(more@.take(more@.len() as int) =~= more@);
}

} // verus!
