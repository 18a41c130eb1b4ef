//! Fees of a swap: the protocol's share of the pricing spread, and the fee
//! rate that a quote reports.
use crate::types::Error;
use rust_decimal::prelude::FromPrimitive;
use rust_decimal::Decimal;
use vstd::prelude::*;

verus! {

/// The inputs of the protocol fee.
#[derive(Clone, Copy, Debug, PartialEq, Eq, Structural)]
pub struct CalcSwapProtocolFeesArgs {
    pub in_sol_value: u64,
    pub out_sol_value: u64,
    pub dst_lst_out: u64,
    pub trading_protocol_fee_bps: u16,
}

/// The protocol's share of the spread in reference units: the rate applied to
/// what the pricing kept back, rounded up.
pub open spec fn protocol_fee_sol_value(in_sol_value: u64, out_sol_value: u64, bps: u16) -> int {
    ((in_sol_value - out_sol_value) * bps + 9999) / 10000
}

/// The protocol fee in units of the output asset: the share of the spread,
/// converted at the rate of the quoted output, rounded down.
pub open spec fn protocol_fee(args: CalcSwapProtocolFeesArgs) -> Result<u64, Error> {
    if args.out_sol_value > args.in_sol_value || args.trading_protocol_fee_bps > 10000 {
        Err(Error::Overflow)
    } else if args.out_sol_value == 0 {
        Ok(0u64)
    } else {
        let fee = protocol_fee_sol_value(
            args.in_sol_value,
            args.out_sol_value,
            args.trading_protocol_fee_bps,
        ) * args.dst_lst_out / (args.out_sol_value as int);
        if fee > u64::MAX {
            Err(Error::Overflow)
        } else {
            Ok(fee as u64)
        }
    }
}

/// Computes the protocol fee of a swap, in units of the output asset.
pub fn calc_swap_protocol_fees(args: CalcSwapProtocolFeesArgs) -> (r: Result<u64, Error>)
    ensures
        r == protocol_fee(args),
{
    if args.out_sol_value > args.in_sol_value || args.trading_protocol_fee_bps > 10000 {
        return Err(Error::Overflow);
    }
    if args.out_sol_value == 0 {
        return Ok(0);
    }
    let spread: u128 = (args.in_sol_value - args.out_sol_value) as u128;
    let bps: u128 = args.trading_protocol_fee_bps as u128;
    assert(spread * bps <= 0xffff_ffff_ffff_ffff * 10000) by (nonlinear_arith)
        requires
            spread <= 0xffff_ffff_ffff_ffff,
            bps <= 10000,
    ;
    let fee_sol: u128 = (spread * bps + 9999) / 10000;
    let dst: u128 = args.dst_lst_out as u128;
    assert(fee_sol * dst <= 0x1_0000_0000_0000_0000 * 0xffff_ffff_ffff_ffff) by (nonlinear_arith)
        requires
            fee_sol <= 0x1_0000_0000_0000_0000,
            dst <= 0xffff_ffff_ffff_ffff,
    ;
    let fee: u128 = fee_sol * dst / (args.out_sol_value as u128);
    if fee > u64::MAX as u128 {
        Err(Error::Overflow)
    } else {
        Ok(fee as u64)
    }
}

/// A decimal fraction: `mantissa` divided by ten to the power `scale`.
#[derive(Clone, Copy, Debug, PartialEq, Eq, Structural)]
pub struct FeePct {
    pub mantissa: i128,
    pub scale: u32,
}

/// Ten to the power `n`.
pub open spec fn pow10(n: nat) -> int
    decreases n,
{
    if n == 0 {
        1
    } else {
        10 * pow10((n - 1) as nat)
    }
}

impl FeePct {
    /// The fraction lies between zero and one, both included, and its scale is
    /// one that a decimal can have.
    pub open spec fn in_unit_range(self) -> bool {
        &&& self.scale <= 28
        &&& 0 <= self.mantissa <= pow10(self.scale as nat)
    }
}

proof fn lemma_pow10_bound(n: nat)
    requires
        n <= 28,
    ensures
        1 <= pow10(n) <= 10000000000000000000000000000,
    decreases 28 - n,
{
    if n == 28 {
        assert(pow10(28) == 10000000000000000000000000000) by {
            reveal_with_fuel(pow10, 30);
        }
    } else {
        lemma_pow10_bound(n + 1);
        assert(pow10(n + 1) == 10 * pow10(n));
    }
}

/// Ten to the power `scale`, for the scales that a decimal can have.
pub fn ten_to_the(scale: u32) -> (r: i128)
    requires
        scale <= 28,
    ensures
        r == pow10(scale as nat),
{
    let mut r: i128 = 1;
    let mut i: u32 = 0;
    while i < scale
        invariant
            0 <= i <= scale <= 28,
            r == pow10(i as nat),
        decreases scale - i,
    {
        proof {
            lemma_pow10_bound(i as nat);
            lemma_pow10_bound((i + 1) as nat);
        }
        r = r * 10;
        i += 1;
    }
    r
}

/// The quotient of two unsigned integers as a decimal, by its mantissa and
/// scale; `None` where the division has no result.
pub uninterp spec fn decimal_quotient(num: u64, den: u64) -> Option<(i128, u32)>;

/// Divides with `rust_decimal`: both integers become a `Decimal` through
/// `from_u64`, `Decimal::checked_div` divides them, and the quotient is handed
/// back by its `mantissa` and `scale`. The result is a function of the two
/// integers. Two things are taken from the division as it is written: a zero
/// divisor has no quotient, and zero divided by anything else is the decimal
/// zero, whose mantissa and scale are both zero. Nothing else is claimed of
/// the quotient.
#[verifier::external_body]
fn decimal_div(num: u64, den: u64) -> (r: Option<(i128, u32)>)
    ensures
        r == decimal_quotient(num, den),
        den == 0 ==> r is None,
        num == 0 && den != 0 ==> r == Some((0i128, 0u32)),
{
    let n = Decimal::from_u64(num)?;
    let d = Decimal::from_u64(den)?;
    let q = n.checked_div(d)?;
    Some((q.mantissa(), q.scale()))
}

/// The fee rate that a quotient stands for, if it is one.
pub open spec fn fee_pct_of(quotient: Option<(i128, u32)>) -> Result<FeePct, Error> {
    match quotient {
        Some((mantissa, scale)) => {
            let pct = FeePct { mantissa, scale };
            if pct.in_unit_range() {
                Ok(pct)
            } else {
                Err(Error::Overflow)
            }
        },
        None => Err(Error::Overflow),
    }
}

/// Accepts a quotient as a fee rate where it lies between zero and one.
pub fn fee_pct_from_quotient(quotient: Option<(i128, u32)>) -> (r: Result<FeePct, Error>)
    ensures
        r == fee_pct_of(quotient),
        r matches Ok(pct) ==> pct.in_unit_range(),
{
    match quotient {
        Some((mantissa, scale)) => {
            if scale <= 28 && 0 <= mantissa && mantissa <= ten_to_the(scale) {
                Ok(FeePct { mantissa, scale })
            } else {
                Err(Error::Overflow)
            }
        },
        None => Err(Error::Overflow),
    }
}

/// The fee rate of a quote: the part of the input's reference value that the
/// pricing kept back, over the whole of it. An input worth nothing has no
/// rate, and without a spread the rate is zero.
pub open spec fn quote_fee_pct(in_sol_value: u64, out_sol_value: u64) -> Result<FeePct, Error> {
    if out_sol_value > in_sol_value || in_sol_value == 0 {
        Err(Error::Overflow)
    } else if out_sol_value == in_sol_value {
        Ok(FeePct { mantissa: 0, scale: 0 })
    } else {
        fee_pct_of(decimal_quotient((in_sol_value - out_sol_value) as u64, in_sol_value))
    }
}

/// Computes the fee of a quote in reference units and as a rate.
///
/// The rate is always between zero and one. An input value of zero has no
/// rate, and an output value above the input has no fee.
pub fn calc_quote_fees(in_sol_value: u64, out_sol_value: u64) -> (r: Result<(u64, FeePct), Error>)
    ensures
        r is Ok == quote_fee_pct(in_sol_value, out_sol_value) is Ok,
        r matches Ok((fee, pct)) ==> fee == in_sol_value - out_sol_value && Ok::<FeePct, Error>(pct)
            == quote_fee_pct(in_sol_value, out_sol_value) && pct.in_unit_range(),
        r matches Err(e) ==> e == Error::Overflow,
{
    if out_sol_value > in_sol_value {
        return Err(Error::Overflow);
    }
    let fee_amount_sol: u64 = in_sol_value - out_sol_value;
    match fee_pct_from_quotient(decimal_div(fee_amount_sol, in_sol_value)) {
        Ok(pct) => Ok((fee_amount_sol, pct)),
        Err(e) => Err(e),
    }
}

} // verus!
