//! The race-conditioned transition weight tables.
//!
//! Each race category has one row per current quintile; a row holds six
//! relative weights for the outcomes quintile one through five and
//! incarceration, in that order. Weights are stated in hundredths, so the
//! published per-cent figures carry over exactly as integers and weighted
//! selection keeps the same ratios.

use vstd::prelude::*;

use crate::demographic::Race;

verus! {

/// The sum of the first `n` weights of a row.
pub open spec fn sum_prefix(s: Seq<u64>, n: int) -> int
    decreases n,
{
    if n <= 0 {
        0
    } else {
        sum_prefix(s, n - 1) + s[n - 1]
    }
}

/// The total weight of a row.
pub open spec fn sum_weights(s: Seq<u64>) -> int {
    sum_prefix(s, s.len() as int)
}

/// The transition weight row for the given race and current quintile
/// (weights in hundredths; outcomes are quintile one through five, then
/// incarceration).
pub open spec fn spec_weights_row(race: Race, q: int) -> Seq<u64> {
    if race == Race::Black {
        if q == 1 {
            seq![3230u64, 2635u64, 1445u64, 765u64, 425u64, 1500u64]
        } else if q == 2 {
            seq![2430u64, 3060u64, 2250u64, 720u64, 540u64, 1000u64]
        } else if q == 3 {
            seq![1302u64, 2232u64, 3441u64, 2139u64, 186u64, 700u64]
        } else if q == 4 {
            seq![1045u64, 1710u64, 4085u64, 2185u64, 475u64, 500u64]
        } else {
            seq![485u64, 97u64, 1552u64, 5626u64, 1940u64, 300u64]
        }
    } else {
        if q == 1 {
            seq![3610u64, 2945u64, 1615u64, 855u64, 475u64, 500u64]
        } else if q == 2 {
            seq![2134u64, 3201u64, 2522u64, 1552u64, 291u64, 300u64]
        } else if q == 3 {
            seq![1274u64, 1862u64, 3332u64, 2254u64, 1078u64, 200u64]
        } else if q == 4 {
            seq![396u64, 792u64, 1980u64, 4356u64, 2376u64, 100u64]
        } else {
            seq![297u64, 99u64, 198u64, 2875u64, 6445u64, 85u64]
        }
    }
}

/// Builds a six-entry weight row.
fn row6(a: u64, b: u64, c: u64, d: u64, e: u64, f: u64) -> (row: Vec<u64>)
    ensures
        row@ == seq![a, b, c, d, e, f],
{
    let mut row: Vec<u64> = Vec::new();
    row.push(a);
    row.push(b);
    row.push(c);
    row.push(d);
    row.push(e);
    row.push(f);
    proof {
        assert(row@ =~= seq![a, b, c, d, e, f]);
    }
    row
}

/// The transition weight row for the given race and current quintile.
pub fn weights_row(race: Race, q: i8) -> (row: Vec<u64>)
    requires
        race == Race::Black || race == Race::White,
        1 <= q <= 5,
    ensures
        row@ == spec_weights_row(race, q as int),
{
    match race {
        Race::Black => {
            if q == 1 {
                row6(3230, 2635, 1445, 765, 425, 1500)
            } else if q == 2 {
                row6(2430, 3060, 2250, 720, 540, 1000)
            } else if q == 3 {
                row6(1302, 2232, 3441, 2139, 186, 700)
            } else if q == 4 {
                row6(1045, 1710, 4085, 2185, 475, 500)
            } else {
                row6(485, 97, 1552, 5626, 1940, 300)
            }
        },
        _ => {
            if q == 1 {
                row6(3610, 2945, 1615, 855, 475, 500)
            } else if q == 2 {
                row6(2134, 3201, 2522, 1552, 291, 300)
            } else if q == 3 {
                row6(1274, 1862, 3332, 2254, 1078, 200)
            } else if q == 4 {
                row6(396, 792, 1980, 4356, 2376, 100)
            } else {
                row6(297, 99, 198, 2875, 6445, 85)
            }
        },
    }
}

/// Every table row has a positive total weight no larger than ten thousand.
pub proof fn lemma_row_sum(race: Race, q: int)
    requires
        race == Race::Black || race == Race::White,
        1 <= q <= 5,
    ensures
        0 < sum_weights(spec_weights_row(race, q)) <= 10000,
{
    reveal_with_fuel(sum_prefix, 7);
}

} // verus!
