//! Mode enumerator.
//!
//! The platform advertises the modes of an adapter output one by one; the
//! caller gathers the refresh-rate field of every advertised mode, in order,
//! and hands the raw list over. Out of it this module produces the supported
//! refresh rates: the distinct meaningful frequencies, strictly ascending.

use vstd::prelude::*;

verus! {

/// Every earlier entry is below every later one; in particular there are no
/// duplicates.
pub open spec fn strictly_ascending(s: Seq<u32>) -> bool {
    forall|i: int, j: int| 0 <= i < j < s.len() ==> s[i] < s[j]
}

/// Frequencies of 0 and 1 are sentinel values for "unset" and carry no
/// meaning; every other advertised frequency is meaningful.
pub open spec fn meaningful_rate(v: u32) -> bool {
    v > 1
}

/// Inserts a rate into a strictly ascending list, keeping it strictly
/// ascending; a rate already present is left alone.
fn insert_rate(rates: &mut Vec<u32>, v: u32)
    requires
        strictly_ascending(old(rates)@),
    ensures
        strictly_ascending(final(rates)@),
        forall|w: u32| #[trigger] final(rates)@.contains(w) <==> (old(rates)@.contains(w) || w
            == v),
{
    let ghost orig = rates@;
    let mut p: usize = 0;
    while p < rates.len() && rates[p] < v
        invariant
            0 <= p <= rates@.len(),
            rates@ == orig,
            forall|j: int| 0 <= j < p ==> rates@[j] < v,
        decreases rates@.len() - p,
    {
        p = p + 1;
    }
    if p < rates.len() && rates[p] == v {
        proof {
            assert(orig.contains(v));
            assert forall|w: u32| #[trigger] rates@.contains(w) <==> (orig.contains(w) || w
                == v) by {}
        }
        return ;
    }
    rates.insert(p, v);
    proof {
        let s = rates@;
        assert forall|i: int, j: int| 0 <= i < j < s.len() implies s[i] < s[j] by {
            if j < p {
                assert(s[i] == orig[i] && s[j] == orig[j]);
            } else if i < p && j == p {
                assert(s[i] == orig[i] && s[j] == v);
            } else if i < p && j > p {
                assert(s[i] == orig[i] && s[j] == orig[j - 1]);
                assert(orig[i] < v);
                assert(p <= j - 1 < orig.len());
                if p < orig.len() {
                    assert(v < orig[p as int] || v == orig[p as int] || orig[p as int] < v);
                    assert(orig[p as int] <= orig[j - 1]);
                }
            } else if i == p {
                assert(s[i] == v && s[j] == orig[j - 1]);
                assert(p <= j - 1 < orig.len());
                assert(orig[p as int] <= orig[j - 1]);
            } else {
                assert(s[i] == orig[i - 1] && s[j] == orig[j - 1]);
            }
        }
        assert forall|w: u32| #[trigger] s.contains(w) <==> (orig.contains(w) || w == v) by {
            if s.contains(w) {
                let k = choose|k: int| 0 <= k < s.len() && s[k] == w;
                if k < p {
                    assert(orig[k] == w);
                    assert(orig.contains(w));
                } else if k == p {
                } else {
                    assert(orig[k - 1] == w);
                    assert(orig.contains(w));
                }
            }
            if orig.contains(w) {
                let k = choose|k: int| 0 <= k < orig.len() && orig[k] == w;
                if k < p {
                    assert(s[k] == w);
                } else {
                    assert(s[k + 1] == w);
                }
            }
            if w == v {
                assert(s[p as int] == w);
            }
        }
    }
}

/// The distinct meaningful refresh rates among the advertised mode
/// frequencies, strictly ascending.
pub fn get_available_refresh_rates(frequencies: &Vec<u32>) -> (r: Vec<u32>)
    ensures
        strictly_ascending(r@),
        forall|v: u32| #[trigger] r@.contains(v) <==> (frequencies@.contains(v)
            && meaningful_rate(v)),
{
    let mut rates: Vec<u32> = Vec::new();
    let mut i: usize = 0;
    while i < frequencies.len()
        invariant
            0 <= i <= frequencies@.len(),
            strictly_ascending(rates@),
            forall|v: u32| #[trigger] rates@.contains(v) <==> (frequencies@.take(
                i as int,
            ).contains(v) && v > 1),
        decreases frequencies@.len() - i,
    {
        let v = frequencies[i];
        let ghost before = rates@;
        if v > 1 {
            insert_rate(&mut rates, v);
        }
        proof {
            let taken = frequencies@.take(i as int);
            let taken1 = frequencies@.take(i + 1);
            assert(taken1 =~= taken.push(frequencies@[i as int]));
            assert forall|w: u32| #[trigger] taken1.contains(w) <==> (taken.contains(w) || w
                == frequencies@[i as int]) by {
                if taken1.contains(w) {
                    let k = choose|k: int| 0 <= k < taken1.len() && taken1[k] == w;
                    if k < taken.len() {
                        assert(taken[k] == w);
                    }
                }
                if taken.contains(w) {
                    let k = choose|k: int| 0 <= k < taken.len() && taken[k] == w;
                    assert(taken1[k] == w);
                }
                if w == frequencies@[i as int] {
                    assert(taken1[taken1.len() - 1] == w);
                }
            }
        }
        i = i + 1;
    }
    proof {
        assert(frequencies@.take(i as int) =~= frequencies@);
    }
    rates
}

} // verus!
