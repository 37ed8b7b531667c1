use opsml_cli::api::error::Error;
use opsml_cli::api::metrics::MetricGetter;
use opsml_cli::api::types::{ListMetricResponse, Metric, MetricTable};

#[test]
fn test_get_metrics() {
    let mut vec = Vec::new();
    let metric1 = Metric {
        run_uid: "test".to_string(),
        name: "mae".to_string(),
        value: "5".to_string(),
        step: None,
        timestamp: None,
    };
    vec.push(metric1);

    let metric2 = Metric {
        run_uid: "test".to_string(),
        name: "mape".to_string(),
        value: "10.0".to_string(),
        step: None,
        timestamp: None,
    };
    vec.push(metric2);

    let metric_getter = MetricGetter {};

    assert_eq!(
        MetricGetter::metrics_url("http://127.0.0.1:1234", "fake"),
        Ok("http://127.0.0.1:1234/opsml/metrics?run_uid=fake".to_string())
    );

    let mock_response = ListMetricResponse { metric: vec };

    let metric_table = metric_getter.parse_metric_response(Some(mock_response)).unwrap();

    assert_eq!(
        metric_table,
        [
            "┌────────┬───────┬──────┬───────────┐\n",
            "│ metric │ value │ step │ timestamp │\n",
            "├────────┼───────┼──────┼───────────┤\n",
            "│  mae   │   5   │ None │   None    │\n",
            "│  mape  │ 10.0  │ None │   None    │\n",
            "└────────┴───────┴──────┴───────────┘",
        ]
        .concat()
    );
}

#[test]
fn a_recorded_step_and_timestamp_are_shown() {
    let metric = Metric {
        run_uid: "run".to_string(),
        name: "mae".to_string(),
        value: "0.5".to_string(),
        step: Some("3".to_string()),
        timestamp: Some("1700000000".to_string()),
    };
    let row = MetricTable::of_metric(&metric);
    assert_eq!(
        row,
        MetricTable {
            metric: "mae".to_string(),
            value: "0.5".to_string(),
            step: "3".to_string(),
            timestamp: "1700000000".to_string(),
        }
    );
    assert_eq!(row.fields(), vec!["mae", "0.5", "3", "1700000000"]);
    assert_eq!(MetricTable::headers(), vec!["metric", "value", "step", "timestamp"]);
    let table = MetricGetter {}
        .metrics_response(200, "".to_string(), Some(ListMetricResponse { metric: vec![metric] }))
        .unwrap();
    assert_eq!(
        table,
        [
            "┌────────┬───────┬──────┬────────────┐\n",
            "│ metric │ value │ step │ timestamp  │\n",
            "├────────┼───────┼──────┼────────────┤\n",
            "│  mae   │  0.5  │  3   │ 1700000000 │\n",
            "└────────┴───────┴──────┴────────────┘",
        ]
        .concat()
    );
}

#[test]
fn a_failure_status_rejects_the_metrics() {
    let listing = ListMetricResponse { metric: vec![] };
    assert_eq!(
        MetricGetter {}.metrics_response(404, "no run".to_string(), Some(listing)),
        Err(Error::ServerRejected { status: 404, body: "no run".to_string() })
    );
}

#[test]
fn unreadable_metrics_are_a_malformed_response() {
    assert_eq!(MetricGetter {}.parse_metric_response(None), Err(Error::MalformedResponse));
    assert_eq!(
        MetricGetter {}.metrics_response(200, "[]".to_string(), None),
        Err(Error::MalformedResponse)
    );
}
