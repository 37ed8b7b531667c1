//! Showing the metrics of a run.
use crate::api::error::Error;
use crate::api::table::{render_table, sharp_centered_table};
use crate::api::types::{ListMetricResponse, Metric, MetricTable};
use crate::api::utils::{request_url, request_url_of, success_status, OpsmlPaths};
use vstd::prelude::*;
use vstd::string::*;

verus! {

/// The query of a request for the metrics of the run `uid`.
pub open spec fn metric_query(uid: Seq<char>) -> Seq<(Seq<char>, Seq<char>)> {
    seq![("run_uid"@, uid)]
}

/// The header of the table of metrics.
pub open spec fn metric_header() -> Seq<Seq<char>> {
    seq!["metric"@, "value"@, "step"@, "timestamp"@]
}

/// The row of a metric: a step or a timestamp that was not recorded shows
/// as `None`.
pub open spec fn metric_row(metric: Metric) -> Seq<Seq<char>> {
    seq![
        metric.name@,
        metric.value@,
        match metric.step {
            Some(step) => step@,
            None => "None"@,
        },
        match metric.timestamp {
            Some(timestamp) => timestamp@,
            None => "None"@,
        },
    ]
}

/// The header and the rows of the table of `metrics`.
pub open spec fn metric_records(metrics: Seq<Metric>) -> Seq<Seq<Seq<char>>> {
    seq![metric_header()] + Seq::new(metrics.len(), |i: int| metric_row(metrics[i]))
}

impl MetricTable {
    /// The cells of the row, in the order of the header.
    pub open spec fn cells(&self) -> Seq<Seq<char>> {
        seq![self.metric@, self.value@, self.step@, self.timestamp@]
    }

    pub fn headers() -> (header: Vec<String>)
        ensures
            header.deep_view() == metric_header(),
    {
        let mut header: Vec<String> = Vec::new();
        header.push(String::from_str("metric"));
        header.push(String::from_str("value"));
        header.push(String::from_str("step"));
        header.push(String::from_str("timestamp"));
        assert(header.deep_view() =~= metric_header());
        header
    }

    pub fn fields(&self) -> (cells: Vec<String>)
        ensures
            cells.deep_view() == self.cells(),
    {
        let mut cells: Vec<String> = Vec::new();
        cells.push(self.metric.clone());
        cells.push(self.value.clone());
        cells.push(self.step.clone());
        cells.push(self.timestamp.clone());
        assert(cells.deep_view() =~= self.cells());
        cells
    }

    /// The row that shows `metric`.
    pub fn of_metric(metric: &Metric) -> (row: MetricTable)
        ensures
            row.cells() == metric_row(*metric),
    {
        let step = match &metric.step {
            Some(step) => step.clone(),
            None => String::from_str("None"),
        };
        let timestamp = match &metric.timestamp {
            Some(timestamp) => timestamp.clone(),
            None => String::from_str("None"),
        };
        let row = MetricTable {
            metric: metric.name.clone(),
            value: metric.value.clone(),
            step,
            timestamp,
        };
        assert(row.cells() =~= metric_row(*metric));
        row
    }
}

pub struct MetricGetter {}

impl MetricGetter {
    /// The address that lists the metrics of the run `uid`.
    pub fn metrics_url(tracking_uri: &str, uid: &str) -> (address: Result<String, Error>)
        ensures
            match address {
                Ok(text) => request_url_of(
                    tracking_uri@ + OpsmlPaths::Metric.route(),
                    Some(metric_query(uid@)),
                ) == Some(text@),
                Err(e) => {
                    &&& request_url_of(
                    tracking_uri@ + OpsmlPaths::Metric.route(),
                    Some(metric_query(uid@)),
                ) is None
                    &&& e matches Error::InvalidUrl { url } && url@ == tracking_uri@
                        + OpsmlPaths::Metric.route()
                },
            },
    {
        let route = OpsmlPaths::Metric.as_str(tracking_uri);
        let params = [("run_uid", uid)];
        let address = request_url(route.as_str(), Some(params.as_slice()));
        proof {
            assert(crate::api::utils::pairs_view(params@) =~= metric_query(uid@));
        }
        address
    }

    /// Draws the table of the metrics that the reply lists. `parsed` is the
    /// listing that the body of the reply holds, if it holds one.
    pub fn parse_metric_response(&self, parsed: Option<ListMetricResponse>) -> (table: Result<
        String,
        Error,
    >)
        ensures
            match table {
                Ok(text) => parsed matches Some(listing) && text@ == sharp_centered_table(
                    metric_records(listing.metric@),
                ),
                Err(e) => parsed is None && e is MalformedResponse,
            },
    {
        let listing = match parsed {
            Some(listing) => listing,
            None => {
                return Err(Error::MalformedResponse);
            },
        };
        let mut records: Vec<Vec<String>> = Vec::new();
        records.push(MetricTable::headers());
        let mut i: usize = 0;
        while i < listing.metric.len()
            invariant
                i <= listing.metric.len(),
                records.len() == i + 1,
                records@[0].deep_view() == metric_header(),
                forall|k: int| 0 <= k < i ==> (#[trigger] records@[k + 1]).deep_view()
                    == metric_row(listing.metric[k]),
            decreases listing.metric.len() - i,
        {
            let row = MetricTable::of_metric(&listing.metric[i]);
            records.push(row.fields());
            i = i + 1;
        }
        proof {
            let drawn = records.deep_view();
            let wanted = metric_records(listing.metric@);
            assert(drawn.len() == wanted.len());
            assert forall|j: int| 0 <= j < drawn.len() implies drawn[j] == wanted[j] by {
                if j > 0 {
                    assert(records@[(j - 1) + 1].deep_view() == metric_row(listing.metric[j - 1]));
                }
            }
            assert(drawn =~= wanted);
        }
        Ok(render_table(records))
    }

    /// Reads the reply to the request: the table of the metrics on a
    /// success status, the rejection with the status and the body on any
    /// other.
    pub fn metrics_response(
        &self,
        status: u16,
        body: String,
        parsed: Option<ListMetricResponse>,
    ) -> (table: Result<String, Error>)
        ensures
            match table {
                Ok(text) => {
                    &&& success_status(status)
                    &&& parsed matches Some(listing) && text@ == sharp_centered_table(
                        metric_records(listing.metric@),
                    )
                },
                Err(Error::ServerRejected { status: code, body: replied }) => !success_status(
                    status,
                ) && code == status && replied == body,
                Err(Error::MalformedResponse) => success_status(status) && parsed is None,
                Err(_) => false,
            },
    {
        if 200 <= status && status < 300 {
            self.parse_metric_response(parsed)
        } else {
            Err(Error::ServerRejected { status, body })
        }
    }
}

} // verus!
