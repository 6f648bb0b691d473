//! Status Aggregator arithmetic and the parsers for the OS
//! process-statistics text: cumulative CPU ticks from a process stat
//! record, resident and shared page counts from a statm record, and the
//! kernel page size from a memory-map summary. The caller reads the files;
//! everything here is a pure function of their contents.
use crate::text::{
    spec_dec_val, spec_tokens, spec_u64_numeral, split_whitespace_tokens, parse_u64, str_eq,
};
use crate::ServiceError;
use vstd::prelude::*;
use vstd::string::*;

verus! {

broadcast use vstd::string::group_string_axioms;

/// The CPU usage of a process over a sampling window, in percent: the tick
/// delta turned into milliseconds of CPU time via the tick rate, then
/// divided by the window and scaled to percent. Integer division at each
/// step, as sampled counters give it.
pub open spec fn spec_cpu_percent(delta_ticks: nat, ticks_per_second: nat, interval_ms: nat) -> nat
    recommends
        ticks_per_second > 0,
        interval_ms > 0,
{
    delta_ticks * 1000 / ticks_per_second * 100 / interval_ms
}

/// Computes the CPU percentage of one process from two tick readings a
/// sampling window apart. A reading that went backwards counts as no use;
/// a value beyond `u64::MAX` is capped there.
pub fn cpu_percent(initial_ticks: u64, final_ticks: u64, ticks_per_second: u64, interval_ms: u64)
    -> (r: u64)
    requires
        ticks_per_second > 0,
        interval_ms > 0,
    ensures
        ({
            let delta: nat = if final_ticks >= initial_ticks {
                (final_ticks - initial_ticks) as nat
            } else {
                0
            };
            let v = spec_cpu_percent(delta, ticks_per_second as nat, interval_ms as nat);
            r == if v <= u64::MAX {
                v
            } else {
                u64::MAX as nat
            }
        }),
{
    if final_ticks < initial_ticks {
        return 0;
    }
    let delta = final_ticks - initial_ticks;
    let usage_ms: u128 = (delta as u128) * 1000 / (ticks_per_second as u128);
    let scaled: u128 = usage_ms * 100 / (interval_ms as u128);
    if scaled > u64::MAX as u128 {
        u64::MAX
    } else {
        scaled as u64
    }
}

/// The CPU percentages of a fleet of processes from two tick readings
/// taken over one shared sampling window: element `k` of the result is the
/// percentage of the process whose readings stand at position `k` of both
/// inputs.
pub fn compute_cpu_percents(
    initial: &Vec<u64>,
    after: &Vec<u64>,
    ticks_per_second: u64,
    interval_ms: u64,
) -> (r: Vec<u64>)
    requires
        initial.len() == after.len(),
        ticks_per_second > 0,
        interval_ms > 0,
    ensures
        r.len() == initial.len(),
        forall|k: int|
            0 <= k < r.len() ==> ({
                let delta: nat = if after[k] >= initial[k] {
                    (after[k] - initial[k]) as nat
                } else {
                    0
                };
                let v = spec_cpu_percent(delta, ticks_per_second as nat, interval_ms as nat);
                #[trigger] r[k] == if v <= u64::MAX {
                    v
                } else {
                    u64::MAX as nat
                }
            }),
{
    let mut out: Vec<u64> = Vec::new();
    let mut i: usize = 0;
    while i < initial.len()
        invariant
            initial.len() == after.len(),
            ticks_per_second > 0,
            interval_ms > 0,
            i <= initial.len(),
            out.len() == i,
            forall|k: int|
                0 <= k < i ==> ({
                    let delta: nat = if after[k] >= initial[k] {
                        (after[k] - initial[k]) as nat
                    } else {
                        0
                    };
                    let v = spec_cpu_percent(delta, ticks_per_second as nat, interval_ms as nat);
                    #[trigger] out[k] == if v <= u64::MAX {
                        v
                    } else {
                        u64::MAX as nat
                    }
                }),
        decreases initial.len() - i,
    {
        let p = cpu_percent(initial[i], after[i], ticks_per_second, interval_ms);
        out.push(p);
        i = i + 1;
    }
    out
}

/// The resident memory of a process in kilobytes: resident pages minus
/// shared pages, times the page size. A shared count above the resident
/// count yields zero.
pub open spec fn spec_memory_kb(rss_pages: nat, shared_pages: nat, page_size_kb: nat) -> nat {
    if rss_pages >= shared_pages {
        ((rss_pages - shared_pages) * page_size_kb) as nat
    } else {
        0
    }
}

/// Computes the resident memory in kilobytes; a value beyond `u64::MAX`
/// is capped there.
pub fn memory_usage_kb(rss_pages: u64, shared_pages: u64, page_size_kb: u64) -> (r: u64)
    ensures
        ({
            let v = spec_memory_kb(rss_pages as nat, shared_pages as nat, page_size_kb as nat);
            r == if v <= u64::MAX {
                v
            } else {
                u64::MAX as nat
            }
        }),
{
    if rss_pages < shared_pages {
        return 0;
    }
    let d = rss_pages - shared_pages;
    proof {
        assert((d as u128) * (page_size_kb as u128) <= (u64::MAX as u128) * (u64::MAX as u128))
            by (nonlinear_arith)
            requires
                d as u128 <= u64::MAX as u128,
                page_size_kb as u128 <= u64::MAX as u128,
        ;
    }
    let v: u128 = (d as u128) * (page_size_kb as u128);
    if v > u64::MAX as u128 {
        u64::MAX
    } else {
        v as u64
    }
}

/// The cumulative CPU time of a process in clock ticks, read from its stat
/// record: the sum of the fourteenth and fifteenth whitespace-separated
/// fields (user time and kernel time).
pub fn cpu_ticks_from_stat(contents: &str) -> (r: Result<u64, ServiceError>)
    ensures
        ({
            let toks = spec_tokens(contents@);
            &&& (r is Ok <==> (toks.len() >= 15 && spec_u64_numeral(toks[13]) && spec_u64_numeral(
                toks[14],
            ) && spec_dec_val(toks[13]) + spec_dec_val(toks[14]) <= u64::MAX))
            &&& (r matches Ok(v) ==> v == spec_dec_val(toks[13]) + spec_dec_val(toks[14]))
            &&& (r matches Err(e) ==> e == ServiceError::MalformedProcessStat)
        }),
{
    let toks = split_whitespace_tokens(contents);
    if toks.len() < 15 {
        return Err(ServiceError::MalformedProcessStat);
    }
    proof {
        assert(toks.deep_view()[13] == toks[13]@);
        assert(toks.deep_view()[14] == toks[14]@);
    }
    let utime = match parse_u64(toks[13].as_str()) {
        Some(v) => v,
        None => {
            return Err(ServiceError::MalformedProcessStat);
        },
    };
    let stime = match parse_u64(toks[14].as_str()) {
        Some(v) => v,
        None => {
            return Err(ServiceError::MalformedProcessStat);
        },
    };
    if utime > u64::MAX - stime {
        return Err(ServiceError::MalformedProcessStat);
    }
    Ok(utime + stime)
}

/// The resident memory of a process in kilobytes, read from its statm
/// record: the second field is the resident page count and the third the
/// shared page count.
pub fn memory_from_statm(contents: &str, page_size_kb: u64) -> (r: Result<u64, ServiceError>)
    ensures
        ({
            let toks = spec_tokens(contents@);
            &&& (r is Ok <==> (toks.len() >= 3 && spec_u64_numeral(toks[1]) && spec_u64_numeral(
                toks[2],
            )))
            &&& (r matches Ok(v) ==> ({
                let m = spec_memory_kb(
                    spec_dec_val(toks[1]),
                    spec_dec_val(toks[2]),
                    page_size_kb as nat,
                );
                v == if m <= u64::MAX {
                    m
                } else {
                    u64::MAX as nat
                }
            }))
            &&& (r matches Err(e) ==> e == ServiceError::MalformedProcessStat)
        }),
{
    let toks = split_whitespace_tokens(contents);
    if toks.len() < 3 {
        return Err(ServiceError::MalformedProcessStat);
    }
    proof {
        assert(toks.deep_view()[1] == toks[1]@);
        assert(toks.deep_view()[2] == toks[2]@);
    }
    let rss_pages = match parse_u64(toks[1].as_str()) {
        Some(v) => v,
        None => {
            return Err(ServiceError::MalformedProcessStat);
        },
    };
    let shared_pages = match parse_u64(toks[2].as_str()) {
        Some(v) => v,
        None => {
            return Err(ServiceError::MalformedProcessStat);
        },
    };
    Ok(memory_usage_kb(rss_pages, shared_pages, page_size_kb))
}

/// The kernel page size announced by the first `KernelPageSize:` field of
/// a memory-map summary that is followed by a numeral, if any.
pub open spec fn spec_first_page_size(toks: Seq<Seq<char>>) -> Option<nat>
    decreases toks.len(),
{
    if toks.len() == 0 {
        None
    } else if toks[0] == "KernelPageSize:"@ && toks.len() > 1 && spec_u64_numeral(toks[1]) {
        Some(spec_dec_val(toks[1]))
    } else {
        spec_first_page_size(toks.drop_first())
    }
}

/// Reads the kernel page size in kilobytes from a memory-map summary: the
/// numeral after the first `KernelPageSize:` field that carries one.
pub fn page_size_from_smaps(contents: &str) -> (r: Option<u64>)
    ensures
        ({
            let found = spec_first_page_size(spec_tokens(contents@));
            &&& (r is Some <==> found is Some)
            &&& (r matches Some(v) ==> found == Some(v as nat))
        }),
{
    let toks = split_whitespace_tokens(contents);
    let ghost all = toks.deep_view();
    let mut i: usize = 0;
    proof {
        assert(all.skip(0) =~= all);
    }
    while i < toks.len()
        invariant
            all == toks.deep_view(),
            all == spec_tokens(contents@),
            all.len() == toks.len(),
            i <= toks.len(),
            spec_first_page_size(all) == spec_first_page_size(all.skip(i as int)),
        decreases toks.len() - i,
    {
        let ghost rest = all.skip(i as int);
        proof {
            assert(rest[0] == toks[i as int]@);
            assert(rest.drop_first() =~= all.skip(i + 1));
        }
        if str_eq(toks[i].as_str(), "KernelPageSize:") {
            if i + 1 < toks.len() {
                proof {
                    assert(rest[1] == toks[i + 1]@);
                }
                if let Some(v) = parse_u64(toks[i + 1].as_str()) {
                    proof {
                        assert(spec_u64_numeral(rest[1]));
                        assert(spec_first_page_size(rest) == Some(spec_dec_val(rest[1])));
                    }
                    return Some(v);
                }
            }
        }
        i = i + 1;
    }
    proof {
        assert(all.skip(toks.len() as int) =~= Seq::<Seq<char>>::empty());
    }
    None
}

} // verus!
