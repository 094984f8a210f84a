use promg::chart::build_chart;
use promg::prometheus::{Error, Metric, QueryResult};

fn series(name: &str, labels: &[(&str, &str)], values: &[(i64, &str)]) -> QueryResult {
    QueryResult {
        metric: Metric {
            name: name.to_owned(),
            labels: labels.iter().map(|(k, v)| (k.to_string(), v.to_string())).collect(),
        },
        values: values.iter().map(|(t, v)| (*t, v.to_string())).collect(),
    }
}

#[test]
fn end_to_end_matrix_result_becomes_one_labeled_series() {
    let results = vec![series("up", &[("job", "x")], &[(0, "1"), (60, "1")])];
    let chart = build_chart("up".to_owned(), &results).unwrap();
    assert_eq!(chart.title, "up");
    assert_eq!(chart.series.len(), 1);
    assert_eq!(chart.series[0].label, "up");
    assert_eq!(
        chart.series[0].points,
        vec![(0, "1".to_owned()), (60, "1".to_owned())]
    );
}

#[test]
fn nan_value_fails_the_whole_render() {
    let results = vec![series("up", &[], &[(0, "1"), (60, "NaN")])];
    assert_eq!(
        build_chart("t".to_owned(), &results),
        Err(Error::InvalidValue("NaN".to_owned()))
    );
}

#[test]
fn non_numeric_value_in_any_series_fails_the_render() {
    let results = vec![
        series("a", &[], &[(0, "1")]),
        series("b", &[], &[(0, "oops")]),
    ];
    assert_eq!(
        build_chart("t".to_owned(), &results),
        Err(Error::InvalidValue("oops".to_owned()))
    );
}

#[test]
fn each_chart_keeps_its_own_title() {
    let first = vec![series("a", &[], &[(0, "1")])];
    let second = vec![series("b", &[], &[(0, "2")])];
    let c1 = build_chart("first".to_owned(), &first).unwrap();
    let c2 = build_chart("second".to_owned(), &second).unwrap();
    assert_eq!(c1.title, "first");
    assert_eq!(c2.title, "second");
}

#[test]
fn empty_result_set_gives_an_empty_chart() {
    let chart = build_chart("t".to_owned(), &vec![]).unwrap();
    assert_eq!(chart.series.len(), 0);
}

#[test]
fn series_labels_use_the_display_form() {
    let results = vec![series("name", &[("a", "1"), ("b", "2"), ("job", "x")], &[(0, "1")])];
    let chart = build_chart("t".to_owned(), &results).unwrap();
    assert_eq!(chart.series[0].label, "name{a=1b=2}");
}
