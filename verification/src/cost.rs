//! Cost estimator: a deterministic monetary estimate for processing a
//! duration, plus a warning flag against a fixed threshold.
//!
//! Money is counted in nanodollars (10^-9 USD) so that the product of the
//! fixed per-minute rate with a millisecond duration is exact.

use vstd::prelude::*;
use crate::chunks::invalid_duration_msg;
use crate::text::digit_char;
use crate::text::digit_str;
use crate::text::spec_u64_dec;
use crate::text::u64_to_string;

verus! {

/// Fixed processing rate: 0.006 USD per minute.
pub const COST_RATE_PER_MINUTE_NANO_USD: u64 = 6000000;

/// Fixed warning threshold: 5 USD.
pub const COST_WARNING_THRESHOLD_NANO_USD: u64 = 5000000000;

/// The estimate for one duration. `formatted_cost` renders the total in
/// dollars with two fraction digits, rounded half up.
#[derive(Clone, Debug)]
pub struct CostEstimate {
    pub rate_per_minute_nano_usd: u64,
    pub duration_ms: u64,
    pub total_cost_nano_usd: u128,
    pub formatted_cost: String,
    pub warning_threshold_nano_usd: u64,
    pub exceeds_warning_threshold: bool,
}

/// The exact total: (duration / 60000 min) * (6000000 * 10^3 nano/min)
/// reduces to 100 nanodollars per millisecond.
pub open spec fn spec_total_cost_nano(duration_ms: int) -> int {
    duration_ms * 100
}

/// Whole cents of a nanodollar amount, rounded half up.
pub open spec fn spec_cents_of(cost_nano: int) -> int {
    (cost_nano + 5000000) / 10000000
}

/// A cent count below one dollar, always two digits.
pub open spec fn spec_two_digits(n: nat) -> Seq<char> {
    if n < 10 {
        seq!['0', digit_char(n)]
    } else {
        spec_u64_dec(n)
    }
}

/// The rendering "$<dollars>.<cents> USD" of a nanodollar amount.
pub open spec fn spec_format_usd(cost_nano: int) -> Seq<char> {
    seq!['$'] + spec_u64_dec((spec_cents_of(cost_nano) / 100) as nat) + seq!['.']
        + spec_two_digits((spec_cents_of(cost_nano) % 100) as nat) + " USD"@
}

fn format_usd(cost_nano: u128) -> (s: String)
    requires
        cost_nano <= 0xffff_ffff_ffff_ffff * 100,
    ensures
        s@ == spec_format_usd(cost_nano as int),
{
    let cents: u128 = (cost_nano + 5000000) / 10000000;
    proof {
        vstd::arithmetic::div_mod::lemma_div_is_ordered(
            cost_nano + 5000000,
            0xffff_ffff_ffff_ffffint * 100 + 5000000,
            10000000,
        );
        assert((0xffff_ffff_ffff_ffffint * 100 + 5000000) / 10000000 < 0xffff_ffff_ffff_ffff)
            by (nonlinear_arith);
    }
    let dollars: u64 = (cents / 100) as u64;
    let sub_dollar: u64 = (cents % 100) as u64;
    let mut s = "$".to_owned();
    proof {
        reveal_strlit("$");
        assert(s@ =~= seq!['$']);
    }
    s.append(u64_to_string(dollars).as_str());
    s.append(".");
    proof {
        reveal_strlit(".");
    }
    if sub_dollar < 10 {
        s.append("0");
        proof {
            reveal_strlit("0");
        }
        s.append(digit_str(sub_dollar));
    } else {
        s.append(u64_to_string(sub_dollar).as_str());
    }
    s.append(" USD");
    proof {
        reveal_strlit(" USD");
        assert(s@ =~= spec_format_usd(cost_nano as int));
    }
    s
}

/// Estimates the cost of processing `duration_ms`: the exact nanodollar
/// total, its dollar rendering, and whether it meets or exceeds the fixed
/// warning threshold. A zero duration is rejected.
pub fn estimate_cost(duration_ms: u64) -> (r: Result<CostEstimate, String>)
    ensures
        duration_ms == 0 ==> (r matches Err(e) && e@ == invalid_duration_msg()),
        duration_ms > 0 ==> (r matches Ok(c) && {
            &&& c.rate_per_minute_nano_usd == COST_RATE_PER_MINUTE_NANO_USD
            &&& c.duration_ms == duration_ms
            &&& c.total_cost_nano_usd == spec_total_cost_nano(duration_ms as int)
            &&& c.formatted_cost@ == spec_format_usd(spec_total_cost_nano(duration_ms as int))
            &&& c.warning_threshold_nano_usd == COST_WARNING_THRESHOLD_NANO_USD
            &&& (c.exceeds_warning_threshold <==> spec_total_cost_nano(duration_ms as int)
                >= COST_WARNING_THRESHOLD_NANO_USD)
        }),
{
    if duration_ms == 0 {
        return Err("Duration must be a positive number of seconds.".to_owned());
    }
    let total_cost_nano_usd: u128 = (duration_ms as u128) * 100;
    let exceeds_warning_threshold = total_cost_nano_usd
        >= COST_WARNING_THRESHOLD_NANO_USD as u128;
    let formatted_cost = format_usd(total_cost_nano_usd);
    Ok(
        CostEstimate {
            rate_per_minute_nano_usd: COST_RATE_PER_MINUTE_NANO_USD,
            duration_ms,
            total_cost_nano_usd,
            formatted_cost,
            warning_threshold_nano_usd: COST_WARNING_THRESHOLD_NANO_USD,
            exceeds_warning_threshold,
        },
    )
}

/// The estimate is monotone: a longer duration never costs less, and once
/// the warning threshold is met it stays met for every longer duration.
pub proof fn lemma_estimate_monotone(d1: u64, d2: u64)
    requires
        d1 <= d2,
    ensures
        spec_total_cost_nano(d1 as int) <= spec_total_cost_nano(d2 as int),
        spec_total_cost_nano(d1 as int) >= COST_WARNING_THRESHOLD_NANO_USD
            ==> spec_total_cost_nano(d2 as int) >= COST_WARNING_THRESHOLD_NANO_USD,
{
}

} // verus!
