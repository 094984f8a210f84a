//! Orchestration decisions: pairing CLI titles with queries, the live
//! page assembled from per-query outcomes, and the reload cadence.

use vstd::prelude::*;
use vstd::string::*;
use crate::prometheus::{Error, RangeQuery};

verus! {

/// The HTTP status of a successful live-page response.
pub const STATUS_OK: u16 = 200;

/// The HTTP status of a failed live-page response.
pub const STATUS_INTERNAL_SERVER_ERROR: u16 = 500;

/// `r` pairs every query with its title and window: one pair per
/// query, in order; the title is the one given at the same position,
/// or the query text itself when no titles were given at all.
pub open spec fn paired(
    titles: Seq<String>,
    queries: Seq<String>,
    start: u64,
    end: u64,
    step: u64,
    r: Seq<(String, RangeQuery)>,
) -> bool {
    &&& r.len() == queries.len()
    &&& forall|i: int|
        0 <= i < queries.len() ==> {
            &&& (#[trigger] r[i]).1.query == queries[i]
            &&& r[i].1.start == start
            &&& r[i].1.end == end
            &&& r[i].1.step == step
            &&& r[i].0 == if titles.len() == 0 {
                queries[i]
            } else {
                titles[i]
            }
        }
}

/// Pairs each query with a title and the query window. When titles
/// are given there must be exactly one per query; when none are given
/// each query's own text is its title.
pub fn pair_queries(
    titles: &Vec<String>,
    queries: &Vec<String>,
    start: u64,
    end: u64,
    step: u64,
) -> (r: Result<Vec<(String, RangeQuery)>, Error>)
    ensures
        r is Err <==> titles@.len() != 0 && titles@.len() != queries@.len(),
        r is Err ==> r->Err_0 == (Error::TitleCountMismatch {
            titles: titles@.len() as usize,
            queries: queries@.len() as usize,
        }),
        r is Ok ==> paired(titles@, queries@, start, end, step, r->Ok_0@),
{
    if titles.len() != 0 && titles.len() != queries.len() {
        return Err(
            Error::TitleCountMismatch { titles: titles.len(), queries: queries.len() },
        );
    }
    let mut r: Vec<(String, RangeQuery)> = Vec::new();
    let mut i: usize = 0;
    while i < queries.len()
        invariant
            0 <= i <= queries@.len(),
            titles@.len() == 0 || titles@.len() == queries@.len(),
            r@.len() == i,
            forall|k: int|
                0 <= k < i as int ==> {
                    &&& (#[trigger] r@[k]).1.query == queries@[k]
                    &&& r@[k].1.start == start
                    &&& r@[k].1.end == end
                    &&& r@[k].1.step == step
                    &&& r@[k].0 == if titles@.len() == 0 {
                        queries@[k]
                    } else {
                        titles@[k]
                    }
                },
        decreases queries@.len() - i,
    {
        let title = if titles.len() == 0 {
            queries[i].clone()
        } else {
            titles[i].clone()
        };
        let rq = RangeQuery { query: queries[i].clone(), start, end, step };
        r.push((title, rq));
        i = i + 1;
    }
    Ok(r)
}

/// Every per-query outcome succeeded.
pub open spec fn all_ok(outs: Seq<Result<String, Error>>) -> bool {
    forall|i: int| 0 <= i < outs.len() ==> (#[trigger] outs[i]) is Ok
}

/// The rendered fragments of the outcomes, concatenated in order;
/// failed outcomes contribute nothing.
pub open spec fn concat_fragments(outs: Seq<Result<String, Error>>) -> Seq<char>
    decreases outs.len(),
{
    if outs.len() == 0 {
        Seq::<char>::empty()
    } else {
        concat_fragments(outs.drop_last()) + (if outs.last() is Ok {
            outs.last()->Ok_0@
        } else {
            Seq::<char>::empty()
        })
    }
}

/// Assembles the live page for one request from the per-query
/// outcomes: the concatenated fragments when every query succeeded,
/// else a plain internal-error reply with a fixed body and never a
/// partial chart.
pub fn live_response(outcomes: &Vec<Result<String, Error>>) -> (r: (u16, String))
    ensures
        all_ok(outcomes@) ==> r.0 == STATUS_OK && r.1@ == concat_fragments(outcomes@),
        !all_ok(outcomes@) ==> r.0 == STATUS_INTERNAL_SERVER_ERROR && r.1@
            == "Something went wrong"@,
{
    let mut body = String::new();
    proof {
        assert(body@ =~= concat_fragments(outcomes@.take(0)));
    }
    let mut i: usize = 0;
    while i < outcomes.len()
        invariant
            0 <= i <= outcomes@.len(),
            all_ok(outcomes@.take(i as int)),
            body@ == concat_fragments(outcomes@.take(i as int)),
        decreases outcomes@.len() - i,
    {
        proof {
            assert(outcomes@.take(i as int + 1).drop_last() =~= outcomes@.take(i as int));
            assert(outcomes@.take(i as int + 1).last() == outcomes@[i as int]);
        }
        match &outcomes[i] {
            Ok(fragment) => {
                body.append(fragment.as_str());
            },
            Err(_) => {
                proof {
                    assert(!(outcomes@[i as int] is Ok));
                    assert(!all_ok(outcomes@));
                }
                return (STATUS_INTERNAL_SERVER_ERROR, "Something went wrong".to_owned());
            },
        }
        proof {
            assert forall|k: int| 0 <= k < i as int + 1 implies (#[trigger] outcomes@.take(
                i as int + 1,
            )[k]) is Ok by {
                if k < i as int {
                    assert(outcomes@.take(i as int)[k] is Ok);
                }
            }
        }
        i = i + 1;
    }
    proof {
        assert(outcomes@.take(outcomes@.len() as int) =~= outcomes@);
    }
    (STATUS_OK, body)
}

/// Live mode signals a browser reload every half step interval.
pub fn reload_interval_secs(step: u64) -> (r: u64)
    ensures
        r == step / 2,
{
    step / 2
}

} // verus!
