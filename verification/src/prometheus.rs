//! The data model of the query-range API: response shapes, metric
//! display labels, the request parameters of a range query, and the
//! library's error type.

use vstd::prelude::*;
use vstd::string::*;
use crate::text::{dec_digits, u64_to_dec};

verus! {

/// Outcome status reported by the metrics API.
#[derive(Debug, Clone, Copy, PartialEq, Eq, Structural)]
pub enum Status {
    Success,
    Error,
}

/// The shape of the data a query returned. Only `Matrix` (a range
/// result) can be charted; every other shape is a hard error.
#[derive(Debug, Clone, Copy, PartialEq, Eq, Structural)]
pub enum QueryResultType {
    Matrix,
    Vector,
    Scalar,
    String,
}

/// A named metric with its label set. Labels keep the order in which
/// they were inserted; the display form iterates them in that order.
#[derive(Debug, Clone, PartialEq)]
pub struct Metric {
    pub name: String,
    pub labels: Vec<(String, String)>,
}

/// One time series: its metric, and samples as (epoch seconds, value)
/// pairs in the order the API returned them. The value stays a string
/// until render time, where a non-numeric token fails the render.
#[derive(Debug, Clone, PartialEq)]
pub struct QueryResult {
    pub metric: Metric,
    pub values: Vec<(i64, String)>,
}

/// The `data` member of a response.
#[derive(Debug, Clone, PartialEq)]
pub struct Data {
    pub result_type: QueryResultType,
    pub result: Vec<QueryResult>,
}

/// A full query-range response.
#[derive(Debug, Clone, PartialEq)]
pub struct Response {
    pub status: Status,
    pub data: Data,
}

/// A range query: the query text and the window it covers.
#[derive(Debug, Clone, PartialEq)]
pub struct RangeQuery {
    pub query: String,
    pub start: u64,
    pub end: u64,
    pub step: u64,
}

/// Everything that can go wrong between issuing a query and rendering
/// its chart.
#[derive(Debug, Clone, PartialEq)]
pub enum Error {
    /// The request could not be sent, or came back with a failure
    /// status; the payload is the transport's own description.
    Transport(String),
    /// The response body did not match the expected shape.
    Deserialize(String),
    /// The query returned a result shape other than `Matrix`.
    UnsupportedResultType(QueryResultType),
    /// A series value is not a numeric token and cannot be charted.
    InvalidValue(String),
    /// Titles were given, but not one per query.
    TitleCountMismatch { titles: usize, queries: usize },
}

/// The text of one displayed label: `key=value`.
pub open spec fn label_text(k: Seq<char>, v: Seq<char>) -> Seq<char> {
    k + "="@ + v
}

/// The concatenated `key=value` texts of every label except `job`, in
/// stored order.
pub open spec fn kept_labels_text(ls: Seq<(String, String)>) -> Seq<char>
    decreases ls.len(),
{
    if ls.len() == 0 {
        Seq::<char>::empty()
    } else {
        kept_labels_text(ls.drop_last()) + (if ls.last().0@ == "job"@ {
            Seq::<char>::empty()
        } else {
            label_text(ls.last().0@, ls.last().1@)
        })
    }
}

/// Whether any label other than `job` is present.
pub open spec fn has_kept_label(ls: Seq<(String, String)>) -> bool {
    exists|i: int| #![trigger ls[i]] 0 <= i < ls.len() && ls[i].0@ != "job"@
}

impl Metric {
    /// The display form: the bare name, or the name followed by the
    /// non-`job` labels in braces.
    pub open spec fn display_spec(&self) -> Seq<char> {
        if has_kept_label(self.labels@) {
            self.name@ + "{"@ + kept_labels_text(self.labels@) + "}"@
        } else {
            self.name@
        }
    }

    /// Renders the display form of this metric.
    pub fn display(&self) -> (r: String)
        ensures
            r@ == self.display_spec(),
    {
        let job: String = "job".to_owned();
        let mut body = String::new();
        let mut any = false;
        let n = self.labels.len();
        let mut i: usize = 0;
        while i < n
            invariant
                n == self.labels@.len(),
                0 <= i <= n,
                job@ == "job"@,
                body@ == kept_labels_text(self.labels@.take(i as int)),
                any == has_kept_label(self.labels@.take(i as int)),
            decreases n - i,
        {
            let k = &self.labels[i].0;
            let v = &self.labels[i].1;
            let is_job = k.eq(&job);
            proof {
                let pre = self.labels@.take(i as int);
                let post = self.labels@.take(i as int + 1);
                assert(post.drop_last() =~= pre);
                assert(post.last() == self.labels@[i as int]);
                if !is_job {
                    assert(post[i as int].0@ != "job"@);
                    assert(has_kept_label(post));
                } else {
                    if !any {
                        assert forall|j: int| 0 <= j < post.len() implies post[j].0@
                            == "job"@ by {
                            if j < i as int {
                                assert(pre[j] == post[j]);
                                assert(pre[j].0@ == "job"@);
                            }
                        }
                        assert(!has_kept_label(post));
                    } else {
                        let w = choose|j: int|
                            #![trigger pre[j]]
                            0 <= j < pre.len() && pre[j].0@ != "job"@;
                        assert(post[w] == pre[w]);
                        assert(has_kept_label(post));
                    }
                }
            }
            if !is_job {
                body.append(k.as_str());
                body.append("=");
                body.append(v.as_str());
                any = true;
                proof {
                    let post = self.labels@.take(i as int + 1);
                    assert(body@ =~= kept_labels_text(post));
                }
            }
            i = i + 1;
        }
        proof {
            assert(self.labels@.take(n as int) =~= self.labels@);
        }
        let mut out = self.name.clone();
        if any {
            out.append("{");
            out.append(body.as_str());
            out.append("}");
            proof {
                assert(out@ =~= self.display_spec());
            }
        }
        out
    }
}

/// A metric whose labels are all `job` (or that has no labels at all)
/// displays as its bare name.
pub proof fn lemma_display_name_only(m: Metric)
    requires
        forall|i: int| #![trigger m.labels@[i]] 0 <= i < m.labels@.len() ==> m.labels@[i].0@
            == "job"@,
    ensures
        m.display_spec() == m.name@,
{
    assert(!has_kept_label(m.labels@));
}

/// The lower-case name of a result shape, as the API writes it.
pub open spec fn result_type_name(t: QueryResultType) -> Seq<char> {
    match t {
        QueryResultType::Matrix => "matrix"@,
        QueryResultType::Vector => "vector"@,
        QueryResultType::Scalar => "scalar"@,
        QueryResultType::String => "string"@,
    }
}

impl QueryResultType {
    /// Renders the API's name for this result shape.
    pub fn name(&self) -> (r: &'static str)
        ensures
            r@ == result_type_name(*self),
    {
        match self {
            QueryResultType::Matrix => "matrix",
            QueryResultType::Vector => "vector",
            QueryResultType::Scalar => "scalar",
            QueryResultType::String => "string",
        }
    }
}

impl Error {
    /// The message text of each error.
    pub open spec fn message_spec(&self) -> Seq<char> {
        match self {
            Error::Transport(m) => "Request failed: "@ + m@,
            Error::Deserialize(m) => "Unexpected response shape: "@ + m@,
            Error::UnsupportedResultType(t) => "Unsupported result type returned from query: "@
                + result_type_name(*t),
            Error::InvalidValue(v) => "Value is not numeric: "@ + v@,
            Error::TitleCountMismatch { titles, queries } => "Expected one title per query, got "@
                + dec_digits(*titles as nat) + " titles and "@ + dec_digits(*queries as nat)
                + " queries"@,
        }
    }

    /// Renders the message that describes this error.
    pub fn message(&self) -> (r: String)
        ensures
            r@ == self.message_spec(),
    {
        match self {
            Error::Transport(m) => {
                let mut out = "Request failed: ".to_owned();
                out.append(m.as_str());
                out
            },
            Error::Deserialize(m) => {
                let mut out = "Unexpected response shape: ".to_owned();
                out.append(m.as_str());
                out
            },
            Error::UnsupportedResultType(t) => {
                let mut out = "Unsupported result type returned from query: ".to_owned();
                out.append(t.name());
                out
            },
            Error::InvalidValue(v) => {
                let mut out = "Value is not numeric: ".to_owned();
                out.append(v.as_str());
                out
            },
            Error::TitleCountMismatch { titles, queries } => {
                let mut out = "Expected one title per query, got ".to_owned();
                let t = u64_to_dec(*titles as u64);
                out.append(t.as_str());
                out.append(" titles and ");
                let q = u64_to_dec(*queries as u64);
                out.append(q.as_str());
                out.append(" queries");
                proof {
                    assert(out@ =~= self.message_spec());
                }
                out
            },
        }
    }
}

/// The URL a range query is posted to, under the given endpoint base.
pub fn request_url(endpoint: &str) -> (r: String)
    ensures
        r@ == endpoint@ + "/api/v1/query_range"@,
{
    let mut u = endpoint.to_owned();
    u.append("/api/v1/query_range");
    u
}

impl RangeQuery {
    /// The form fields of the POST body: the query text and the window
    /// bounds, the numbers as decimal strings.
    pub fn form_params(&self) -> (r: Vec<(String, String)>)
        ensures
            r@.len() == 4,
            r@[0].0@ == "query"@ && r@[0].1 == self.query,
            r@[1].0@ == "start"@ && r@[1].1@ == dec_digits(self.start as nat),
            r@[2].0@ == "end"@ && r@[2].1@ == dec_digits(self.end as nat),
            r@[3].0@ == "step"@ && r@[3].1@ == dec_digits(self.step as nat),
    {
        let mut r: Vec<(String, String)> = Vec::new();
        r.push(("query".to_owned(), self.query.clone()));
        r.push(("start".to_owned(), u64_to_dec(self.start)));
        r.push(("end".to_owned(), u64_to_dec(self.end)));
        r.push(("step".to_owned(), u64_to_dec(self.step)));
        r
    }
}

impl Response {
    /// Accepts this response only if its data is a matrix; any other
    /// result shape is reported as unsupported, never charted.
    pub fn validate_result_type(self) -> (r: Result<Response, Error>)
        ensures
            r is Ok <==> self.data.result_type == QueryResultType::Matrix,
            r is Ok ==> r->Ok_0 == self,
            r is Err ==> r->Err_0 == Error::UnsupportedResultType(self.data.result_type),
    {
        if self.data.result_type == QueryResultType::Matrix {
            Ok(self)
        } else {
            Err(Error::UnsupportedResultType(self.data.result_type))
        }
    }
}

} // verus!
