//! Chart data: turns the results of one query into labeled series,
//! validating every sample value on the way. A single non-numeric
//! value fails the whole chart; no point is silently skipped.

use vstd::prelude::*;
use vstd::string::*;
use crate::prometheus::{Error, QueryResult};
use crate::text::{is_numeric_token, is_numeric_value};

verus! {

/// One chart line: its legend label and its (epoch seconds, value)
/// points.
#[derive(Debug, Clone, PartialEq)]
pub struct Series {
    pub label: String,
    pub points: Vec<(i64, String)>,
}

/// A chart: its title and one line per returned series.
#[derive(Debug, Clone, PartialEq)]
pub struct Chart {
    pub title: String,
    pub series: Vec<Series>,
}

/// Every sample value of every series is a numeric token.
pub open spec fn all_values_numeric(rs: Seq<QueryResult>) -> bool {
    forall|i: int, j: int|
        #![trigger rs[i].values@[j]]
        0 <= i < rs.len() && 0 <= j < rs[i].values@.len() ==> is_numeric_token(rs[i].values@[j].1@)
}

/// The series drawn for one query result: labeled with the metric's
/// display form, its points the result's samples, unchanged and in
/// order.
pub open spec fn series_for(s: Series, q: QueryResult) -> bool {
    s.label@ == q.metric.display_spec() && s.points@ == q.values@
}

fn clone_points(values: &Vec<(i64, String)>) -> (r: Vec<(i64, String)>)
    ensures
        r@ == values@,
{
    let mut r: Vec<(i64, String)> = Vec::new();
    proof {
        assert(r@ =~= values@.take(0));
    }
    let mut j: usize = 0;
    while j < values.len()
        invariant
            0 <= j <= values@.len(),
            r@ == values@.take(j as int),
        decreases values@.len() - j,
    {
        let t = values[j].0;
        let v = values[j].1.clone();
        r.push((t, v));
        proof {
            assert(r@ =~= values@.take(j as int + 1));
        }
        j = j + 1;
    }
    proof {
        assert(values@.take(values@.len() as int) =~= values@);
    }
    r
}

/// Builds the chart for one query: one series per result, each labeled
/// with its metric's display form. Fails on the first sample value
/// that is not a numeric token, and only then.
pub fn build_chart(title: String, results: &Vec<QueryResult>) -> (r: Result<Chart, Error>)
    ensures
        r is Ok <==> all_values_numeric(results@),
        r is Ok ==> {
            &&& r->Ok_0.title == title
            &&& r->Ok_0.series@.len() == results@.len()
            &&& forall|i: int|
                0 <= i < results@.len() ==> series_for(#[trigger] r->Ok_0.series@[i], results@[i])
        },
        r is Err ==> exists|i: int, j: int|
            #![trigger results@[i].values@[j]]
            {
                &&& 0 <= i < results@.len()
                &&& 0 <= j < results@[i].values@.len()
                &&& !is_numeric_token(results@[i].values@[j].1@)
                &&& r->Err_0 == Error::InvalidValue(results@[i].values@[j].1)
            },
{
    let mut series: Vec<Series> = Vec::new();
    let mut i: usize = 0;
    while i < results.len()
        invariant
            0 <= i <= results@.len(),
            series@.len() == i,
            forall|k: int| 0 <= k < i as int ==> series_for(#[trigger] series@[k], results@[k]),
            forall|k: int, j: int|
                #![trigger results@[k].values@[j]]
                0 <= k < i as int && 0 <= j < results@[k].values@.len() ==> is_numeric_token(
                    results@[k].values@[j].1@,
                ),
        decreases results@.len() - i,
    {
        let qr = &results[i];
        let mut j: usize = 0;
        while j < qr.values.len()
            invariant
                0 <= i < results@.len(),
                *qr == results@[i as int],
                0 <= j <= qr.values@.len(),
                forall|jj: int|
                    0 <= jj < j as int ==> is_numeric_token(#[trigger] qr.values@[jj].1@),
            decreases qr.values@.len() - j,
        {
            if !is_numeric_value(qr.values[j].1.as_str()) {
                proof {
                    assert(!is_numeric_token(results@[i as int].values@[j as int].1@));
                    assert(!all_values_numeric(results@));
                }
                return Err(Error::InvalidValue(qr.values[j].1.clone()));
            }
            j = j + 1;
        }
        let label = qr.metric.display();
        let points = clone_points(&qr.values);
        series.push(Series { label, points });
        i = i + 1;
    }
    Ok(Chart { title, series })
}

} // verus!
